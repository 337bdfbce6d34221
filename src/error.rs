use vstd::prelude::*;

verus! {

/// Why a recovery, a digest or a parse did not succeed.
#[derive(Debug, Clone, Copy, PartialEq, Eq, Structural)]
pub enum Error {
    /// A plaintext algorithm where encryption is required, or a weak hash
    /// in a v6 key derivation.
    InvalidPolicy,
    /// Ciphertext fields, lengths or version tags that do not fit together.
    MalformedInput,
    /// The two-byte additive checksum of a session key does not match.
    ChecksumFailure,
    /// An algorithm or curve with no implementation here.
    UnsupportedAlgorithm,
    /// An identifier that exists for interoperability but must not be used.
    Unsupported,
    /// Decryption asked of a signing-only key.
    UnsupportedOperation,
    /// SHA-1 collision detection fired on the input.
    HashCollision,
    /// A hash algorithm name that is not known.
    UnknownName,
}

} // verus!
