use vstd::prelude::*;

use crate::error::KmsError;

verus! {

/// Identifier of a master key held by a remote key-management service.
///
/// The identifier exists in a foreign system such as a cloud vendor's KMS;
/// the only validation this crate can do is that it is non-empty.
#[derive(Debug, Clone, PartialEq)]
pub struct KeyId(String);

impl KeyId {
    /// The identifier as a sequence of characters.
    pub closed spec fn id(&self) -> Seq<char> {
        self.0@
    }

    /// A well-formed identifier is non-empty.
    pub open spec fn wf(&self) -> bool {
        self.id().len() > 0
    }

    /// Accepts exactly the non-empty identifiers, storing the input verbatim;
    /// an empty input is rejected with `EmptyKey`.
    pub fn new(id: String) -> (r: Result<KeyId, KmsError>)
        ensures
            id@.len() > 0 ==> (r matches Ok(k) && k.id() == id@ && k.wf()),
            id@.len() == 0 ==> (r matches Err(e) && e matches KmsError::EmptyKey(m)
                && m@ == "KMS key id can not be empty"@),
    {
        if id.as_str().is_empty() {
            let msg = "KMS key id can not be empty";
            Err(KmsError::EmptyKey(msg.to_owned()))
        } else {
            Ok(KeyId(id))
        }
    }

    /// The stored identifier, for use as a lookup key in the remote system.
    pub fn as_str(&self) -> (r: &str)
        ensures
            r@ == self.id(),
    {
        self.0.as_str()
    }
}

/// Ciphertext form of a data key, as returned by or sent to a KMS.
///
/// The buffer is opaque, vendor-defined ciphertext; the only guarantee the
/// type carries is that it is non-empty, so that no placeholder buffer can
/// reach a code path that assumes real ciphertext.
#[derive(Debug, Clone, PartialEq)]
pub struct EncryptedKey(Vec<u8>);

impl EncryptedKey {
    /// The ciphertext bytes.
    pub closed spec fn bytes(&self) -> Seq<u8> {
        self.0@
    }

    /// A well-formed encrypted key is non-empty.
    pub open spec fn wf(&self) -> bool {
        self.bytes().len() > 0
    }

    /// Accepts exactly the non-empty buffers, storing the bytes verbatim;
    /// an empty buffer is rejected with `EmptyKey`.
    pub fn new(key: Vec<u8>) -> (r: Result<EncryptedKey, KmsError>)
        ensures
            key@.len() > 0 ==> (r matches Ok(k) && k.bytes() == key@ && k.wf()),
            key@.len() == 0 ==> (r matches Err(e) && e matches KmsError::EmptyKey(m)
                && m@ == "Encrypted Key"@),
    {
        if key.is_empty() {
            Err(KmsError::EmptyKey("Encrypted Key".to_owned()))
        } else {
            Ok(EncryptedKey(key))
        }
    }

    /// The stored ciphertext, for storage or for a later unwrap request.
    pub fn as_bytes(&self) -> (r: &Vec<u8>)
        ensures
            r@ == self.bytes(),
    {
        &self.0
    }
}

/// The key-wrapping algorithms this crate knows, each bound to the exact
/// plaintext key length a correct implementation must use.
#[derive(Debug, PartialEq, Eq, Structural, Clone, Copy)]
pub enum CryptographyType {
    /// Data keys are not separately wrapped; no length constraint.
    Plain,
    /// AES-256 in GCM mode; the key must be exactly 32 bytes.
    AesGcm256,
}

impl CryptographyType {
    /// The plaintext key length the algorithm requires; zero means
    /// unconstrained.
    pub open spec fn spec_target_key_size(self) -> usize {
        match self {
            CryptographyType::Plain => 0,
            CryptographyType::AesGcm256 => 32,
        }
    }

    /// The single source of truth consulted by `PlainKey::new`: the required
    /// key length per algorithm, zero meaning unconstrained.
    #[inline]
    pub fn target_key_size(&self) -> (r: usize)
        ensures
            r == self.spec_target_key_size(),
    {
        match self {
            CryptographyType::Plain => 0,
            CryptographyType::AesGcm256 => 32,
        }
    }
}

/// Unwrapped secret key material, bound to the algorithm it is for.
///
/// The bytes are the plaintext form of a data key and must never reach logs:
/// any diagnostic rendering of this type goes through `redacted_debug`, which
/// emits a fixed marker instead of the bytes. The type deliberately has no
/// `Clone` and no `Debug`.
pub struct PlainKey {
    tag: CryptographyType,
    key: Vec<u8>,
}

impl PlainKey {
    /// The secret key bytes.
    pub closed spec fn bytes(&self) -> Seq<u8> {
        self.key@
    }

    /// The algorithm the key is bound to.
    pub closed spec fn tag(&self) -> CryptographyType {
        self.tag
    }

    /// A well-formed plain key has the length its algorithm requires,
    /// whenever the algorithm constrains the length at all.
    pub open spec fn wf(&self) -> bool {
        self.tag().spec_target_key_size() > 0
            ==> self.bytes().len() == self.tag().spec_target_key_size()
    }

    /// Accepts the bytes exactly when their length matches the algorithm's
    /// required size, or when the algorithm leaves the length unconstrained;
    /// otherwise rejects them with `SizeMismatch(expected, actual)`.
    pub fn new(key: Vec<u8>, t: CryptographyType) -> (r: Result<PlainKey, KmsError>)
        ensures
            (t.spec_target_key_size() == 0 || key@.len() == t.spec_target_key_size())
                ==> (r matches Ok(k) && k.bytes() == key@ && k.tag() == t && k.wf()),
            (t.spec_target_key_size() > 0 && key@.len() != t.spec_target_key_size())
                ==> (r matches Err(e) && e matches KmsError::SizeMismatch(expected, actual)
                    && expected == t.spec_target_key_size() && actual == key@.len()),
    {
        let limitation = t.target_key_size();
        if limitation > 0 && key.len() != limitation {
            Err(KmsError::SizeMismatch(limitation, key.len()))
        } else {
            Ok(PlainKey { key, tag: t })
        }
    }

    /// The algorithm the key was validated against.
    pub fn key_tag(&self) -> (r: CryptographyType)
        ensures
            r == self.tag(),
    {
        self.tag
    }

    /// The raw bytes, for consumption by the cipher that uses the key.
    /// Callers must scope the borrow tightly and never log it.
    pub fn as_bytes(&self) -> (r: &Vec<u8>)
        ensures
            r@ == self.bytes(),
    {
        &self.key
    }

    /// Diagnostic rendering. The result is a fixed marker, the same for every
    /// key, so no secret byte can reach a log through it.
    pub fn redacted_debug(&self) -> (r: &'static str)
        ensures
            r@ == "PlainKey(\"REDACTED\")"@,
    {
        "PlainKey(\"REDACTED\")"
    }
}

/// The paired output of one key-generation event: the same data key in
/// ciphertext and in plaintext form.
///
/// Both fields are individually validated by their own constructors; that the
/// two represent the same underlying key is a contract the provider must
/// honor, not something this crate can check.
pub struct DataKeyPair {
    pub encrypted: EncryptedKey,
    pub plaintext: PlainKey,
}

impl DataKeyPair {
    /// Both halves of the pair are well-formed.
    pub open spec fn wf(&self) -> bool {
        self.encrypted.wf() && self.plaintext.wf()
    }
}

/// Where the key-management service is reached: a region and an endpoint.
#[derive(Debug, Clone)]
pub struct Location {
    pub region: String,
    pub endpoint: String,
}

/// Externally supplied configuration record naming one master key at one
/// vendor. This is the unvalidated wire form: every field, the key id
/// included, may still be empty.
#[derive(Debug, Clone)]
pub struct MasterKeyKms {
    pub key_id: String,
    pub region: String,
    pub endpoint: String,
    pub vendor: String,
}

/// Everything needed to address one master key at one vendor, with the key
/// id already validated. All code past `from_proto` operates on this type
/// only, never on raw configuration input.
#[derive(Debug, Clone)]
pub struct Config {
    pub key_id: KeyId,
    pub location: Location,
    pub vendor: String,
}

impl Config {
    /// The single point where external configuration enters the validated
    /// types: fails exactly when the embedded key id is empty, and otherwise
    /// copies region, endpoint and vendor verbatim.
    pub fn from_proto(mk: MasterKeyKms) -> (r: Result<Config, KmsError>)
        ensures
            mk.key_id@.len() > 0 ==> (r matches Ok(c)
                && c.key_id.id() == mk.key_id@
                && c.key_id.wf()
                && c.location.region@ == mk.region@
                && c.location.endpoint@ == mk.endpoint@
                && c.vendor@ == mk.vendor@),
            mk.key_id@.len() == 0 ==> (r matches Err(e) && e matches KmsError::EmptyKey(m)
                && m@ == "KMS key id can not be empty"@),
    {
        match KeyId::new(mk.key_id) {
            Ok(key_id) => Ok(
                Config {
                    key_id,
                    location: Location { region: mk.region, endpoint: mk.endpoint },
                    vendor: mk.vendor,
                },
            ),
            Err(e) => Err(e),
        }
    }
}

/// Capability interface to one vendor's key-management service, serving one
/// configured master key.
///
/// Concrete adapters (one per cloud vendor) implement this trait and are the
/// only code that talks to the remote service; everything above depends on
/// this contract alone. An adapter must be safe to share across concurrent
/// callers, must fail with a `ProviderError` on any network, auth or
/// remote-service error, and must never surface partial results: a
/// generation either returns the full pair or an error, never one half.
/// Adapters must be debug-renderable, and their rendering must keep every
/// secret byte out, as `PlainKey` does.
pub trait KmsProvider: Sync + Send + core::fmt::Debug + 'static {
    /// Ask the vendor to mint a new data key, returned in both forms.
    fn generate_data_key(&self) -> Result<DataKeyPair, KmsError>;

    /// Ask the vendor to unwrap previously generated ciphertext into the raw
    /// plaintext bytes of the data key.
    fn decrypt_data_key(&self, data_key: &EncryptedKey) -> Result<Vec<u8>, KmsError>;

    /// The vendor's name, for logging and metrics; carries no secret.
    fn name(&self) -> &str;
}

} // verus!
