use pgp_session::{
    decrypt_session_key, decrypt_session_key_with_password, derivation_size, EcdhPublicParams,
    Error, EskType, HashAlgorithm, PkeskBytes, PlainSessionKey, Primitive, PublicParams,
    SecretKeyRepr, SkeskVersion, StringToKey, SymKeyEncryptedSessionKey, SymmetricKeyAlgorithm,
};

fn x25519_fields(sym_alg: Option<SymmetricKeyAlgorithm>) -> PkeskBytes {
    PkeskBytes::X25519 { ephemeral: vec![1; 32], session_key: vec![2; 40], sym_alg }
}

fn x25519_params() -> PublicParams {
    PublicParams::X25519 { key: vec![3; 32] }
}

fn ecdh_params() -> PublicParams {
    PublicParams::ECDH(EcdhPublicParams::P256 {
        p: vec![4; 65],
        hash: HashAlgorithm::SHA2_256,
        alg_sym: SymmetricKeyAlgorithm::AES128,
    })
}

fn legacy_blob(alg: u8, key: &[u8]) -> Vec<u8> {
    let sum: u32 = key.iter().map(|b| *b as u32).sum::<u32>() % 65536;
    let mut v = vec![alg];
    v.extend_from_slice(key);
    v.push((sum >> 8) as u8);
    v.push((sum & 0xff) as u8);
    v
}

#[test]
fn x25519_tag_and_family() {
    let k = SecretKeyRepr::X25519(vec![9; 32]);
    let raw = vec![7u8; 32];
    let r = k.decrypt(&x25519_params(), &x25519_fields(Some(SymmetricKeyAlgorithm::AES256)), EskType::V3_4, &raw);
    match r {
        Ok(PlainSessionKey::V3_4 { sym_alg, ref key }) => {
            assert_eq!(sym_alg, SymmetricKeyAlgorithm::AES256);
            assert_eq!(*key, raw);
        }
        other => panic!("unexpected {:?}", other),
    }
    let r = k.decrypt(&x25519_params(), &x25519_fields(None), EskType::V6, &raw);
    match r {
        Ok(PlainSessionKey::V6 { ref key }) => assert_eq!(*key, raw),
        other => panic!("unexpected {:?}", other),
    }
    let r = k.decrypt(&x25519_params(), &x25519_fields(None), EskType::V3_4, &raw);
    assert!(matches!(r, Err(Error::MalformedInput)));
    let r = k.decrypt(
        &x25519_params(),
        &x25519_fields(Some(SymmetricKeyAlgorithm::AES128)),
        EskType::V6,
        &raw,
    );
    assert!(matches!(r, Err(Error::MalformedInput)));
}

#[test]
fn x25519_needs_x25519_recipient() {
    let k = SecretKeyRepr::X25519(vec![9; 32]);
    let r = k.decrypt(&ecdh_params(), &x25519_fields(None), EskType::V6, &[1, 2]);
    assert!(matches!(r, Err(Error::MalformedInput)));
}

#[test]
fn x448_follows_the_same_rules() {
    let k = SecretKeyRepr::X448(vec![9; 56]);
    let pp = PublicParams::X448 { public: vec![3; 56] };
    let v = PkeskBytes::X448 { ephemeral: vec![1; 56], session_key: vec![2; 40], sym_alg: None };
    assert_eq!(k.dispatch(&pp, &v, EskType::V6), Ok(Primitive::X448));
    assert_eq!(k.dispatch(&pp, &v, EskType::V3_4), Err(Error::MalformedInput));
}

#[test]
fn signing_only_keys_refuse_decryption() {
    let keys = [
        SecretKeyRepr::DSA(vec![1]),
        SecretKeyRepr::ECDSA(vec![1]),
        SecretKeyRepr::EdDSA(vec![1]),
        SecretKeyRepr::EdDSALegacy(vec![1]),
    ];
    let fields = [
        PkeskBytes::Rsa { mpi: vec![1, 2] },
        PkeskBytes::Ecdh { public_point: vec![1], encrypted_session_key: vec![2] },
        x25519_fields(None),
        PkeskBytes::Other,
    ];
    for k in keys.iter() {
        for v in fields.iter() {
            for typ in [EskType::V3_4, EskType::V6] {
                let r = k.decrypt(&x25519_params(), v, typ, &[1, 2, 3]);
                assert!(matches!(r, Err(Error::UnsupportedOperation)));
            }
        }
    }
}

#[test]
fn rsa_unwraps_legacy_blob() {
    let k = SecretKeyRepr::RSA(vec![1; 8]);
    let pp = PublicParams::RSA { n: vec![1], e: vec![3] };
    let v = PkeskBytes::Rsa { mpi: vec![5; 8] };
    let key: Vec<u8> = (1u8..25).collect();
    let blob = legacy_blob(8, &key);
    assert_eq!(k.dispatch(&pp, &v, EskType::V3_4), Ok(Primitive::Rsa));
    match decrypt_session_key(&k, &pp, &v, EskType::V3_4, &blob) {
        Ok(PlainSessionKey::V3_4 { sym_alg, key: ref got }) => {
            assert_eq!(sym_alg, SymmetricKeyAlgorithm::AES192);
            assert_eq!(*got, key);
        }
        other => panic!("unexpected {:?}", other),
    }
    let mut bad = blob.clone();
    bad[3] ^= 0x80;
    assert!(matches!(
        decrypt_session_key(&k, &pp, &v, EskType::V3_4, &bad),
        Err(Error::ChecksumFailure)
    ));
    assert!(matches!(
        decrypt_session_key(&k, &pp, &v, EskType::V6, &blob),
        Err(Error::MalformedInput)
    ));
}

#[test]
fn mismatched_fields_are_malformed() {
    let k = SecretKeyRepr::RSA(vec![1; 8]);
    let v = PkeskBytes::Ecdh { public_point: vec![1], encrypted_session_key: vec![2] };
    assert!(matches!(
        k.decrypt(&ecdh_params(), &v, EskType::V3_4, &[]),
        Err(Error::MalformedInput)
    ));
    let k = SecretKeyRepr::ECDH(vec![1; 8]);
    let v = PkeskBytes::Rsa { mpi: vec![1] };
    assert!(matches!(
        k.decrypt(&ecdh_params(), &v, EskType::V3_4, &[]),
        Err(Error::MalformedInput)
    ));
}

#[test]
fn ecdh_paths() {
    let k = SecretKeyRepr::ECDH(vec![1; 32]);
    let v = PkeskBytes::Ecdh { public_point: vec![4; 65], encrypted_session_key: vec![2; 40] };
    let key = [0xabu8; 16];
    let blob = legacy_blob(7, &key);
    match k.decrypt(&ecdh_params(), &v, EskType::V3_4, &blob) {
        Ok(PlainSessionKey::V3_4 { sym_alg, key: ref got }) => {
            assert_eq!(sym_alg, SymmetricKeyAlgorithm::AES128);
            assert_eq!(*got, key.to_vec());
        }
        other => panic!("unexpected {:?}", other),
    }
    let unsupported = PublicParams::ECDH(EcdhPublicParams::Unsupported { curve: vec![1, 2, 3] });
    assert!(matches!(
        k.decrypt(&unsupported, &v, EskType::V3_4, &blob),
        Err(Error::UnsupportedAlgorithm)
    ));
    let rsa_params = PublicParams::RSA { n: vec![1], e: vec![3] };
    assert!(matches!(
        k.decrypt(&rsa_params, &v, EskType::V3_4, &blob),
        Err(Error::MalformedInput)
    ));
}

fn skesk(version: SkeskVersion, alg: SymmetricKeyAlgorithm, hash_alg: HashAlgorithm, encrypted_key: Vec<u8>) -> SymKeyEncryptedSessionKey {
    SymKeyEncryptedSessionKey {
        version,
        sym_algorithm: alg,
        s2k: StringToKey::IteratedAndSalted { hash_alg, salt: vec![1; 8], count: 96 },
        encrypted_key,
    }
}

#[test]
fn v6_password_with_sha1_is_refused() {
    let p = skesk(SkeskVersion::V6, SymmetricKeyAlgorithm::AES256, HashAlgorithm::SHA1, vec![]);
    assert_eq!(derivation_size(&p), Err(Error::InvalidPolicy));
    let r = decrypt_session_key_with_password(&p, vec![1; 32], &[]);
    assert!(matches!(r, Err(Error::InvalidPolicy)));
    let p = skesk(SkeskVersion::V4, SymmetricKeyAlgorithm::AES256, HashAlgorithm::SHA1, vec![]);
    assert_eq!(derivation_size(&p), Ok(32));
}

#[test]
fn plaintext_password_packet_is_refused() {
    let p = skesk(SkeskVersion::V4, SymmetricKeyAlgorithm::Plaintext, HashAlgorithm::SHA2_256, vec![]);
    assert_eq!(derivation_size(&p), Err(Error::InvalidPolicy));
    assert!(matches!(
        decrypt_session_key_with_password(&p, vec![], &[]),
        Err(Error::InvalidPolicy)
    ));
}

#[test]
fn empty_payload_gives_derived_key() {
    let p = skesk(SkeskVersion::V4, SymmetricKeyAlgorithm::AES128, HashAlgorithm::SHA2_256, vec![]);
    assert_eq!(derivation_size(&p), Ok(16));
    let derived: Vec<u8> = (30u8..46).collect();
    match decrypt_session_key_with_password(&p, derived.clone(), &[9, 9]) {
        Ok(PlainSessionKey::V3_4 { sym_alg, ref key }) => {
            assert_eq!(sym_alg, SymmetricKeyAlgorithm::AES128);
            assert_eq!(*key, derived);
        }
        other => panic!("unexpected {:?}", other),
    }
}

#[test]
fn argon2_is_never_weak() {
    let s = StringToKey::Argon2 { salt: vec![0; 16], t: 1, p: 4, m_enc: 21 };
    assert!(!s.known_weak_hash_algo());
    let p = SymKeyEncryptedSessionKey {
        version: SkeskVersion::V6,
        sym_algorithm: SymmetricKeyAlgorithm::AES128,
        s2k: s,
        encrypted_key: vec![1; 32],
    };
    assert_eq!(derivation_size(&p), Ok(16));
}

#[test]
fn password_payloads_by_version() {
    let derived = vec![5u8; 16];
    let p = skesk(SkeskVersion::V4, SymmetricKeyAlgorithm::AES128, HashAlgorithm::SHA2_256, vec![1; 33]);
    let mut payload = vec![9u8];
    payload.extend_from_slice(&[6u8; 32]);
    match decrypt_session_key_with_password(&p, derived.clone(), &payload) {
        Ok(PlainSessionKey::V3_4 { sym_alg, ref key }) => {
            assert_eq!(sym_alg, SymmetricKeyAlgorithm::AES256);
            assert_eq!(*key, vec![6u8; 32]);
        }
        other => panic!("unexpected {:?}", other),
    }
    assert!(matches!(
        decrypt_session_key_with_password(&p, derived.clone(), &payload[..20]),
        Err(Error::MalformedInput)
    ));
    assert!(matches!(
        decrypt_session_key_with_password(&p, derived.clone(), &[]),
        Err(Error::MalformedInput)
    ));
    let p = skesk(SkeskVersion::V6, SymmetricKeyAlgorithm::AES128, HashAlgorithm::SHA2_256, vec![1; 32]);
    match decrypt_session_key_with_password(&p, derived.clone(), &[8u8; 16]) {
        Ok(PlainSessionKey::V6 { ref key }) => assert_eq!(*key, vec![8u8; 16]),
        other => panic!("unexpected {:?}", other),
    }
    assert!(matches!(
        decrypt_session_key_with_password(&p, derived.clone(), &[8u8; 15]),
        Err(Error::MalformedInput)
    ));
    let p = skesk(SkeskVersion::V5, SymmetricKeyAlgorithm::AES128, HashAlgorithm::SHA2_256, vec![1; 32]);
    match decrypt_session_key_with_password(&p, derived, &[8u8; 16]) {
        Ok(PlainSessionKey::V5 { ref key }) => assert_eq!(*key, vec![8u8; 16]),
        other => panic!("unexpected {:?}", other),
    }
}

#[test]
fn x25519_tagged_key_must_fit_its_cipher() {
    let k = SecretKeyRepr::X25519(vec![9; 32]);
    let fields = x25519_fields(Some(SymmetricKeyAlgorithm::AES256));
    let r = k.decrypt(&x25519_params(), &fields, EskType::V3_4, &[]);
    assert!(matches!(r, Err(Error::MalformedInput)));
    let r = k.decrypt(&x25519_params(), &fields, EskType::V3_4, &[7u8; 16]);
    assert!(matches!(r, Err(Error::MalformedInput)));
    let plain = x25519_fields(Some(SymmetricKeyAlgorithm::Plaintext));
    let r = k.decrypt(&x25519_params(), &plain, EskType::V3_4, &[]);
    assert!(matches!(r, Err(Error::MalformedInput)));
}

#[test]
fn derived_key_of_wrong_size_is_refused() {
    let p = skesk(SkeskVersion::V4, SymmetricKeyAlgorithm::AES128, HashAlgorithm::SHA2_256, vec![]);
    let r = decrypt_session_key_with_password(&p, vec![1u8; 15], &[]);
    assert!(matches!(r, Err(Error::MalformedInput)));
}
