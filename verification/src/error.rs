use vstd::prelude::*;

verus! {

/// The failures this crate can report.
///
/// Validation errors (`EmptyKey`, `SizeMismatch`) are raised at construction
/// time and never silently coerced; a `ProviderError` wraps whatever a vendor
/// adapter reported from its remote call, unmodified.
#[derive(Debug, Clone, PartialEq, Eq)]
pub enum KmsError {
    /// A `KeyId` or an `EncryptedKey` was built from empty input; the string
    /// names which of the two.
    EmptyKey(String),
    /// A plaintext key's length differs from what its algorithm requires:
    /// expected length first, actual length second.
    SizeMismatch(usize, usize),
    /// Opaque failure from a vendor adapter: network, auth, remote service,
    /// or malformed ciphertext.
    ProviderError(String),
}

} // verus!
