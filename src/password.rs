use vstd::prelude::*;

use crate::error::Error;
use crate::hash::{is_weak_spec, HashAlgorithm};
use crate::session_key::{copy_range, outcome, wipe, PlainSessionKey, SessionKeyModel};
use crate::sym::{key_size_of, sym_of_byte, SymmetricKeyAlgorithm};

verus! {

/// Version of a password-encrypted session key packet.
#[derive(Debug, Clone, Copy, PartialEq, Eq, Structural)]
pub enum SkeskVersion {
    V4,
    V5,
    V6,
}

/// A string-to-key specification: how a password becomes key bytes.
#[derive(Debug, Clone)]
pub enum StringToKey {
    Simple { hash_alg: HashAlgorithm },
    Salted { hash_alg: HashAlgorithm, salt: Vec<u8> },
    IteratedAndSalted { hash_alg: HashAlgorithm, salt: Vec<u8>, count: u8 },
    Argon2 { salt: Vec<u8>, t: u8, p: u8, m_enc: u8 },
}

/// A parsed password-encrypted session key packet.
#[derive(Debug, Clone)]
pub struct SymKeyEncryptedSessionKey {
    pub version: SkeskVersion,
    pub sym_algorithm: SymmetricKeyAlgorithm,
    pub s2k: StringToKey,
    /// The encrypted session key; empty where the derived bytes are the key.
    pub encrypted_key: Vec<u8>,
}

/// The specification derives with a weak hash.
pub open spec fn s2k_weak_spec(s: StringToKey) -> bool {
    match s {
        StringToKey::Simple { hash_alg } => is_weak_spec(hash_alg),
        StringToKey::Salted { hash_alg, .. } => is_weak_spec(hash_alg),
        StringToKey::IteratedAndSalted { hash_alg, .. } => is_weak_spec(hash_alg),
        StringToKey::Argon2 { .. } => false,
    }
}

/// The packet may not be used: a plaintext cipher, or a weak hash in a v6
/// packet's derivation.
pub open spec fn policy_refuses(p: SymKeyEncryptedSessionKey) -> bool {
    p.sym_algorithm == SymmetricKeyAlgorithm::Plaintext || (p.version == SkeskVersion::V6
        && s2k_weak_spec(p.s2k))
}

/// How many key bytes are to be derived from the password, or why none are.
pub open spec fn derivation_size_spec(p: SymKeyEncryptedSessionKey) -> Result<usize, Error> {
    if policy_refuses(p) {
        Err(Error::InvalidPolicy)
    } else {
        Ok(key_size_of(p.sym_algorithm) as usize)
    }
}

/// The session key inside a decrypted v4 payload: cipher byte, then key.
pub open spec fn v4_payload_unwrap(b: Seq<u8>) -> Result<SessionKeyModel, Error> {
    if b.len() == 0 {
        Err(Error::MalformedInput)
    } else if sym_of_byte(b[0]) == SymmetricKeyAlgorithm::Plaintext {
        Err(Error::InvalidPolicy)
    } else if b.len() != key_size_of(sym_of_byte(b[0])) + 1 {
        Err(Error::MalformedInput)
    } else {
        Ok(SessionKeyModel::V3_4(sym_of_byte(b[0]), b.subrange(1, b.len() as int)))
    }
}

/// The session key recovered from a packet, given the bytes derived from
/// the password and the decryption of the encrypted key under them.
pub open spec fn password_spec(
    p: SymKeyEncryptedSessionKey,
    derived: Seq<u8>,
    payload: Seq<u8>,
) -> Result<SessionKeyModel, Error> {
    if policy_refuses(p) {
        Err(Error::InvalidPolicy)
    } else if p.encrypted_key@.len() == 0 {
        if derived.len() == key_size_of(p.sym_algorithm) {
            Ok(SessionKeyModel::V3_4(p.sym_algorithm, derived))
        } else {
            Err(Error::MalformedInput)
        }
    } else {
        match p.version {
            SkeskVersion::V4 => v4_payload_unwrap(payload),
            SkeskVersion::V5 => if payload.len() == key_size_of(p.sym_algorithm) {
                Ok(SessionKeyModel::V5(payload))
            } else {
                Err(Error::MalformedInput)
            },
            SkeskVersion::V6 => if payload.len() == key_size_of(p.sym_algorithm) {
                Ok(SessionKeyModel::V6(payload))
            } else {
                Err(Error::MalformedInput)
            },
        }
    }
}

impl StringToKey {
    /// Whether the derivation uses MD5, SHA-1 or RIPEMD-160.
    pub fn known_weak_hash_algo(&self) -> (r: bool)
        ensures
            r == s2k_weak_spec(*self),
    {
        match self {
            StringToKey::Simple { hash_alg } => hash_alg.is_weak(),
            StringToKey::Salted { hash_alg, .. } => hash_alg.is_weak(),
            StringToKey::IteratedAndSalted { hash_alg, .. } => hash_alg.is_weak(),
            StringToKey::Argon2 { .. } => false,
        }
    }
}

/// Unwraps a decrypted v4 payload: cipher byte, then a key of its size.
pub fn unwrap_v4_payload(b: &[u8]) -> (r: Result<PlainSessionKey, Error>)
    ensures
        outcome(r) == v4_payload_unwrap(b@),
{
    if b.len() == 0 {
        return Err(Error::MalformedInput);
    }
    let sym_alg = SymmetricKeyAlgorithm::from_byte(b[0]);
    if let SymmetricKeyAlgorithm::Plaintext = sym_alg {
        return Err(Error::InvalidPolicy);
    }
    if b.len() - 1 != sym_alg.key_size() {
        return Err(Error::MalformedInput);
    }
    let key = copy_range(b, 1, b.len());
    Ok(PlainSessionKey::V3_4 { sym_alg, key })
}

/// Checks the packet against policy and says how many key bytes to derive
/// from the password. A refused packet gets no size, so nothing is derived.
pub fn derivation_size(packet: &SymKeyEncryptedSessionKey) -> (r: Result<usize, Error>)
    ensures
        r == derivation_size_spec(*packet),
        packet.version == SkeskVersion::V6 && s2k_weak_spec(packet.s2k) ==> r == Err::<
            usize,
            Error,
        >(Error::InvalidPolicy),
{
    if let SymmetricKeyAlgorithm::Plaintext = packet.sym_algorithm {
        return Err(Error::InvalidPolicy);
    }
    if let SkeskVersion::V6 = packet.version {
        if packet.s2k.known_weak_hash_algo() {
            return Err(Error::InvalidPolicy);
        }
    }
    Ok(packet.sym_algorithm.key_size())
}

/// Recovers the session key of a password-encrypted packet.
///
/// `derived` is what the packet's string-to-key gave for the size that
/// [`derivation_size`] named (other lengths are refused as malformed);
/// `payload` is the packet's encrypted key decrypted under `derived`
/// (ignored where the packet has none).
pub fn decrypt_session_key_with_password(
    packet: &SymKeyEncryptedSessionKey,
    derived: Vec<u8>,
    payload: &[u8],
) -> (r: Result<PlainSessionKey, Error>)
    ensures
        outcome(r) == password_spec(*packet, derived@, payload@),
        packet.version == SkeskVersion::V6 && s2k_weak_spec(packet.s2k) ==> r == Err::<
            PlainSessionKey,
            Error,
        >(Error::InvalidPolicy),
        !policy_refuses(*packet) && packet.encrypted_key@.len() == 0 && derived@.len()
            == key_size_of(packet.sym_algorithm) ==> outcome(r) == Ok::<
            SessionKeyModel,
            Error,
        >(SessionKeyModel::V3_4(packet.sym_algorithm, derived@)),
{
    let packet_algorithm = packet.sym_algorithm;
    let mut derived = derived;
    if let Err(e) = derivation_size(packet) {
        wipe(&mut derived);
        return Err(e);
    }
    if packet.encrypted_key.len() == 0 {
        if derived.len() != packet_algorithm.key_size() {
            wipe(&mut derived);
            return Err(Error::MalformedInput);
        }
        return Ok(PlainSessionKey::V3_4 { key: derived, sym_alg: packet_algorithm });
    }
    wipe(&mut derived);
    assert(payload@.subrange(0, payload@.len() as int) =~= payload@);
    match packet.version {
        SkeskVersion::V4 => unwrap_v4_payload(payload),
        SkeskVersion::V5 => {
            if payload.len() != packet_algorithm.key_size() {
                return Err(Error::MalformedInput);
            }
            Ok(PlainSessionKey::V5 { key: copy_range(payload, 0, payload.len()) })
        },
        SkeskVersion::V6 => {
            if payload.len() != packet_algorithm.key_size() {
                return Err(Error::MalformedInput);
            }
            Ok(PlainSessionKey::V6 { key: copy_range(payload, 0, payload.len()) })
        },
    }
}

} // verus!
