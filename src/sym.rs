use vstd::prelude::*;

verus! {

/// Symmetric cipher identifiers, with a catch-all for unassigned values.
#[derive(Debug, Clone, Copy, PartialEq, Eq, Structural)]
pub enum SymmetricKeyAlgorithm {
    Plaintext,
    IDEA,
    TripleDES,
    CAST5,
    Blowfish,
    AES128,
    AES192,
    AES256,
    Twofish,
    Camellia128,
    Camellia192,
    Camellia256,
    Other(u8),
}

/// The cipher that a wire value names; unassigned values are kept as `Other`.
pub open spec fn sym_of_byte(b: u8) -> SymmetricKeyAlgorithm {
    match b {
        0 => SymmetricKeyAlgorithm::Plaintext,
        1 => SymmetricKeyAlgorithm::IDEA,
        2 => SymmetricKeyAlgorithm::TripleDES,
        3 => SymmetricKeyAlgorithm::CAST5,
        4 => SymmetricKeyAlgorithm::Blowfish,
        7 => SymmetricKeyAlgorithm::AES128,
        8 => SymmetricKeyAlgorithm::AES192,
        9 => SymmetricKeyAlgorithm::AES256,
        10 => SymmetricKeyAlgorithm::Twofish,
        11 => SymmetricKeyAlgorithm::Camellia128,
        12 => SymmetricKeyAlgorithm::Camellia192,
        13 => SymmetricKeyAlgorithm::Camellia256,
        _ => SymmetricKeyAlgorithm::Other(b),
    }
}

/// The wire value of a cipher identifier.
pub open spec fn sym_to_byte(a: SymmetricKeyAlgorithm) -> u8 {
    match a {
        SymmetricKeyAlgorithm::Plaintext => 0,
        SymmetricKeyAlgorithm::IDEA => 1,
        SymmetricKeyAlgorithm::TripleDES => 2,
        SymmetricKeyAlgorithm::CAST5 => 3,
        SymmetricKeyAlgorithm::Blowfish => 4,
        SymmetricKeyAlgorithm::AES128 => 7,
        SymmetricKeyAlgorithm::AES192 => 8,
        SymmetricKeyAlgorithm::AES256 => 9,
        SymmetricKeyAlgorithm::Twofish => 10,
        SymmetricKeyAlgorithm::Camellia128 => 11,
        SymmetricKeyAlgorithm::Camellia192 => 12,
        SymmetricKeyAlgorithm::Camellia256 => 13,
        SymmetricKeyAlgorithm::Other(b) => b,
    }
}

/// Key size in bytes of each cipher; zero where none is defined.
pub open spec fn key_size_of(a: SymmetricKeyAlgorithm) -> nat {
    match a {
        SymmetricKeyAlgorithm::Plaintext => 0,
        SymmetricKeyAlgorithm::IDEA => 16,
        SymmetricKeyAlgorithm::TripleDES => 24,
        SymmetricKeyAlgorithm::CAST5 => 16,
        SymmetricKeyAlgorithm::Blowfish => 16,
        SymmetricKeyAlgorithm::AES128 => 16,
        SymmetricKeyAlgorithm::AES192 => 24,
        SymmetricKeyAlgorithm::AES256 => 32,
        SymmetricKeyAlgorithm::Twofish => 32,
        SymmetricKeyAlgorithm::Camellia128 => 16,
        SymmetricKeyAlgorithm::Camellia192 => 24,
        SymmetricKeyAlgorithm::Camellia256 => 32,
        SymmetricKeyAlgorithm::Other(_) => 0,
    }
}

impl SymmetricKeyAlgorithm {
    /// Reads a wire value.
    pub fn from_byte(b: u8) -> (r: SymmetricKeyAlgorithm)
        ensures
            r == sym_of_byte(b),
    {
        match b {
            0 => SymmetricKeyAlgorithm::Plaintext,
            1 => SymmetricKeyAlgorithm::IDEA,
            2 => SymmetricKeyAlgorithm::TripleDES,
            3 => SymmetricKeyAlgorithm::CAST5,
            4 => SymmetricKeyAlgorithm::Blowfish,
            7 => SymmetricKeyAlgorithm::AES128,
            8 => SymmetricKeyAlgorithm::AES192,
            9 => SymmetricKeyAlgorithm::AES256,
            10 => SymmetricKeyAlgorithm::Twofish,
            11 => SymmetricKeyAlgorithm::Camellia128,
            12 => SymmetricKeyAlgorithm::Camellia192,
            13 => SymmetricKeyAlgorithm::Camellia256,
            _ => SymmetricKeyAlgorithm::Other(b),
        }
    }

    /// The wire value.
    pub fn to_byte(&self) -> (r: u8)
        ensures
            r == sym_to_byte(*self),
    {
        match self {
            SymmetricKeyAlgorithm::Plaintext => 0,
            SymmetricKeyAlgorithm::IDEA => 1,
            SymmetricKeyAlgorithm::TripleDES => 2,
            SymmetricKeyAlgorithm::CAST5 => 3,
            SymmetricKeyAlgorithm::Blowfish => 4,
            SymmetricKeyAlgorithm::AES128 => 7,
            SymmetricKeyAlgorithm::AES192 => 8,
            SymmetricKeyAlgorithm::AES256 => 9,
            SymmetricKeyAlgorithm::Twofish => 10,
            SymmetricKeyAlgorithm::Camellia128 => 11,
            SymmetricKeyAlgorithm::Camellia192 => 12,
            SymmetricKeyAlgorithm::Camellia256 => 13,
            SymmetricKeyAlgorithm::Other(b) => *b,
        }
    }

    /// Key size in bytes.
    pub fn key_size(&self) -> (r: usize)
        ensures
            r == key_size_of(*self),
    {
        match self {
            SymmetricKeyAlgorithm::Plaintext => 0,
            SymmetricKeyAlgorithm::IDEA => 16,
            SymmetricKeyAlgorithm::TripleDES => 24,
            SymmetricKeyAlgorithm::CAST5 => 16,
            SymmetricKeyAlgorithm::Blowfish => 16,
            SymmetricKeyAlgorithm::AES128 => 16,
            SymmetricKeyAlgorithm::AES192 => 24,
            SymmetricKeyAlgorithm::AES256 => 32,
            SymmetricKeyAlgorithm::Twofish => 32,
            SymmetricKeyAlgorithm::Camellia128 => 16,
            SymmetricKeyAlgorithm::Camellia192 => 24,
            SymmetricKeyAlgorithm::Camellia256 => 32,
            SymmetricKeyAlgorithm::Other(_) => 0,
        }
    }
}

} // verus!
