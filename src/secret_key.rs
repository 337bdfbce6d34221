use vstd::prelude::*;

use crate::error::Error;
use crate::hash::HashAlgorithm;
use crate::session_key::{
    copy_range, legacy_unwrap, outcome, unwrap_legacy, EskType, PlainSessionKey, SessionKeyModel,
};
use crate::sym::{key_size_of, SymmetricKeyAlgorithm};

verus! {

/// Parameters of an ECDH public key, fixed when the key was made.
#[derive(Debug, Clone)]
pub enum EcdhPublicParams {
    Curve25519 { p: Vec<u8>, hash: HashAlgorithm, alg_sym: SymmetricKeyAlgorithm },
    P256 { p: Vec<u8>, hash: HashAlgorithm, alg_sym: SymmetricKeyAlgorithm },
    P384 { p: Vec<u8>, hash: HashAlgorithm, alg_sym: SymmetricKeyAlgorithm },
    P521 { p: Vec<u8>, hash: HashAlgorithm, alg_sym: SymmetricKeyAlgorithm },
    /// A curve with no implementation, by its OID.
    Unsupported { curve: Vec<u8> },
}

/// Public parameters of the recipient key.
#[derive(Debug, Clone)]
pub enum PublicParams {
    RSA { n: Vec<u8>, e: Vec<u8> },
    DSA { key: Vec<u8> },
    ECDSA { key: Vec<u8> },
    ECDH(EcdhPublicParams),
    EdDSALegacy { key: Vec<u8> },
    Ed25519 { key: Vec<u8> },
    X25519 { key: Vec<u8> },
    X448 { public: Vec<u8> },
}

/// The ciphertext fields of a public-key encrypted session key packet.
#[derive(Debug, Clone)]
pub enum PkeskBytes {
    Rsa { mpi: Vec<u8> },
    Ecdh { public_point: Vec<u8>, encrypted_session_key: Vec<u8> },
    X25519 {
        ephemeral: Vec<u8>,
        session_key: Vec<u8>,
        sym_alg: Option<SymmetricKeyAlgorithm>,
    },
    X448 {
        ephemeral: Vec<u8>,
        session_key: Vec<u8>,
        sym_alg: Option<SymmetricKeyAlgorithm>,
    },
    Other,
}

/// The private part of a secret key, by algorithm.
#[derive(Debug, Clone)]
pub enum SecretKeyRepr {
    RSA(Vec<u8>),
    DSA(Vec<u8>),
    ECDSA(Vec<u8>),
    ECDH(Vec<u8>),
    EdDSA(Vec<u8>),
    EdDSALegacy(Vec<u8>),
    X25519(Vec<u8>),
    X448(Vec<u8>),
}

/// The asymmetric primitive that a consistent request is handed to.
#[derive(Debug, Clone, Copy, PartialEq, Eq, Structural)]
pub enum Primitive {
    /// Its output is a blob for the shared post-processing.
    Rsa,
    /// As `Rsa`.
    Ecdh,
    /// Its output is the session key itself.
    X25519,
    /// As `X25519`.
    X448,
}

/// The key family is signing-only.
pub open spec fn signing_only(k: SecretKeyRepr) -> bool {
    k is DSA || k is ECDSA || k is EdDSA || k is EdDSALegacy
}

/// The optional cipher tag of an X25519 or X448 packet fits the packet family.
pub open spec fn tag_fits(tag: Option<SymmetricKeyAlgorithm>, typ: EskType) -> bool {
    (typ == EskType::V3_4 && tag is Some) || (typ == EskType::V6 && tag is None)
}

/// Which primitive a request goes to, or why it is refused before any
/// decryption.
pub open spec fn dispatch_spec(
    k: SecretKeyRepr,
    pp: PublicParams,
    v: PkeskBytes,
    typ: EskType,
) -> Result<Primitive, Error> {
    if signing_only(k) {
        Err(Error::UnsupportedOperation)
    } else {
        match (k, v) {
            (SecretKeyRepr::RSA(_), PkeskBytes::Rsa { .. }) => {
                if typ == EskType::V3_4 {
                    Ok(Primitive::Rsa)
                } else {
                    Err(Error::MalformedInput)
                }
            },
            (SecretKeyRepr::ECDH(_), PkeskBytes::Ecdh { .. }) => {
                match pp {
                    PublicParams::ECDH(EcdhPublicParams::Unsupported { .. }) => Err(
                        Error::UnsupportedAlgorithm,
                    ),
                    PublicParams::ECDH(_) => {
                        if typ == EskType::V3_4 {
                            Ok(Primitive::Ecdh)
                        } else {
                            Err(Error::MalformedInput)
                        }
                    },
                    _ => Err(Error::MalformedInput),
                }
            },
            (SecretKeyRepr::X25519(_), PkeskBytes::X25519 { sym_alg, .. }) => {
                if pp is X25519 && tag_fits(sym_alg, typ) {
                    Ok(Primitive::X25519)
                } else {
                    Err(Error::MalformedInput)
                }
            },
            (SecretKeyRepr::X448(_), PkeskBytes::X448 { sym_alg, .. }) => {
                if pp is X448 && tag_fits(sym_alg, typ) {
                    Ok(Primitive::X448)
                } else {
                    Err(Error::MalformedInput)
                }
            },
            _ => Err(Error::MalformedInput),
        }
    }
}

/// The cipher tag that X25519 and X448 fields carry.
pub open spec fn tag_of(v: PkeskBytes) -> Option<SymmetricKeyAlgorithm> {
    match v {
        PkeskBytes::X25519 { sym_alg, .. } => sym_alg,
        PkeskBytes::X448 { sym_alg, .. } => sym_alg,
        _ => None,
    }
}

/// The session key recovered from `raw`, the output of the primitive that
/// `dispatch_spec` chose.
pub open spec fn decrypt_spec(
    k: SecretKeyRepr,
    pp: PublicParams,
    v: PkeskBytes,
    typ: EskType,
    raw: Seq<u8>,
) -> Result<SessionKeyModel, Error> {
    match dispatch_spec(k, pp, v, typ) {
        Err(e) => Err(e),
        Ok(Primitive::Rsa) => legacy_unwrap(raw),
        Ok(Primitive::Ecdh) => legacy_unwrap(raw),
        Ok(_) => match tag_of(v) {
            Some(a) => if a == SymmetricKeyAlgorithm::Plaintext || raw.len() != key_size_of(a) {
                Err(Error::MalformedInput)
            } else {
                Ok(SessionKeyModel::V3_4(a, raw))
            },
            None => Ok(SessionKeyModel::V6(raw)),
        },
    }
}

fn tag_fits_exec(tag: &Option<SymmetricKeyAlgorithm>, typ: EskType) -> (r: bool)
    ensures
        r == tag_fits(*tag, typ),
{
    match (typ, tag) {
        (EskType::V3_4, Some(_)) => true,
        (EskType::V6, None) => true,
        _ => false,
    }
}

impl SecretKeyRepr {
    /// Checks that the key, the recipient's public parameters, the ciphertext
    /// fields and the packet family fit together, and names the primitive
    /// that is to decrypt the fields.
    pub fn dispatch(&self, pub_params: &PublicParams, values: &PkeskBytes, typ: EskType) -> (r:
        Result<Primitive, Error>)
        ensures
            r == dispatch_spec(*self, *pub_params, *values, typ),
    {
        match (self, values) {
            (SecretKeyRepr::DSA(_), _) => Err(Error::UnsupportedOperation),
            (SecretKeyRepr::ECDSA(_), _) => Err(Error::UnsupportedOperation),
            (SecretKeyRepr::EdDSA(_), _) => Err(Error::UnsupportedOperation),
            (SecretKeyRepr::EdDSALegacy(_), _) => Err(Error::UnsupportedOperation),
            (SecretKeyRepr::RSA(_), PkeskBytes::Rsa { .. }) => {
                match typ {
                    EskType::V3_4 => Ok(Primitive::Rsa),
                    EskType::V6 => Err(Error::MalformedInput),
                }
            },
            (SecretKeyRepr::ECDH(_), PkeskBytes::Ecdh { .. }) => {
                match pub_params {
                    PublicParams::ECDH(EcdhPublicParams::Unsupported { .. }) => Err(
                        Error::UnsupportedAlgorithm,
                    ),
                    PublicParams::ECDH(_) => {
                        match typ {
                            EskType::V3_4 => Ok(Primitive::Ecdh),
                            EskType::V6 => Err(Error::MalformedInput),
                        }
                    },
                    _ => Err(Error::MalformedInput),
                }
            },
            (SecretKeyRepr::X25519(_), PkeskBytes::X25519 { sym_alg, .. }) => {
                if let PublicParams::X25519 { .. } = pub_params {
                    if tag_fits_exec(sym_alg, typ) {
                        return Ok(Primitive::X25519);
                    }
                }
                Err(Error::MalformedInput)
            },
            (SecretKeyRepr::X448(_), PkeskBytes::X448 { sym_alg, .. }) => {
                if let PublicParams::X448 { .. } = pub_params {
                    if tag_fits_exec(sym_alg, typ) {
                        return Ok(Primitive::X448);
                    }
                }
                Err(Error::MalformedInput)
            },
            _ => Err(Error::MalformedInput),
        }
    }

    /// Recovers the session key, given `raw`: what the primitive named by
    /// [`SecretKeyRepr::dispatch`] returned on these ciphertext fields.
    ///
    /// RSA and ECDH output is a legacy blob (cipher byte, key, checksum);
    /// X25519 and X448 output is the key itself, tagged as the fields say; a
    /// tagged key must be of its cipher's size, and the cipher not plaintext.
    pub fn decrypt(&self, pub_params: &PublicParams, values: &PkeskBytes, typ: EskType, raw: &[u8]) -> (r:
        Result<PlainSessionKey, Error>)
        ensures
            outcome(r) == decrypt_spec(*self, *pub_params, *values, typ, raw@),
            signing_only(*self) ==> r == Err::<PlainSessionKey, Error>(Error::UnsupportedOperation),
    {
        match self.dispatch(pub_params, values, typ) {
            Err(e) => Err(e),
            Ok(Primitive::Rsa) => unwrap_legacy(raw),
            Ok(Primitive::Ecdh) => unwrap_legacy(raw),
            Ok(_) => {
                let key = copy_range(raw, 0, raw.len());
                assert(raw@.subrange(0, raw@.len() as int) =~= raw@);
                let tag = match values {
                    PkeskBytes::X25519 { sym_alg, .. } => *sym_alg,
                    PkeskBytes::X448 { sym_alg, .. } => *sym_alg,
                    _ => None,
                };
                match tag {
                    Some(sym_alg) => {
                        if let SymmetricKeyAlgorithm::Plaintext = sym_alg {
                            return Err(Error::MalformedInput);
                        }
                        if raw.len() != sym_alg.key_size() {
                            return Err(Error::MalformedInput);
                        }
                        Ok(PlainSessionKey::V3_4 { sym_alg, key })
                    },
                    None => Ok(PlainSessionKey::V6 { key }),
                }
            },
        }
    }
}

/// Recovers a session key with an unlocked secret key; `raw` is what the
/// key's primitive returned on the ciphertext fields.
pub fn decrypt_session_key(
    priv_key: &SecretKeyRepr,
    pub_params: &PublicParams,
    values: &PkeskBytes,
    typ: EskType,
    raw: &[u8],
) -> (r: Result<PlainSessionKey, Error>)
    ensures
        outcome(r) == decrypt_spec(*priv_key, *pub_params, *values, typ, raw@),
{
    priv_key.decrypt(pub_params, values, typ, raw)
}

} // verus!
