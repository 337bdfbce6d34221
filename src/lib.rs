//! Recovery of OpenPGP session keys from encrypted-session-key packets,
//! with the hash-algorithm registry that gates its policy checks.

pub mod error;
pub mod hash;
pub mod sym;
pub mod session_key;
pub mod secret_key;
pub mod password;

pub use error::Error;
pub use hash::HashAlgorithm;
pub use password::{
    decrypt_session_key_with_password, derivation_size, SkeskVersion, StringToKey,
    SymKeyEncryptedSessionKey,
};
pub use secret_key::{
    decrypt_session_key, EcdhPublicParams, PkeskBytes, Primitive, PublicParams, SecretKeyRepr,
};
pub use session_key::{EskType, PlainSessionKey};
pub use sym::SymmetricKeyAlgorithm;
