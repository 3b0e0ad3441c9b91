pub mod error;
pub mod kms;
