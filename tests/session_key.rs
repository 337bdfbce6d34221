use pgp_session::session_key::{simple_checksum, unwrap_legacy, unwrap_session_key, unwrap_v6};
use pgp_session::{Error, EskType, PlainSessionKey, SymmetricKeyAlgorithm};

fn legacy_blob(alg: u8, key: &[u8]) -> Vec<u8> {
    let sum: u32 = key.iter().map(|b| *b as u32).sum::<u32>() % 65536;
    let mut v = vec![alg];
    v.extend_from_slice(key);
    v.push((sum >> 8) as u8);
    v.push((sum & 0xff) as u8);
    v
}

#[test]
fn checksum_is_additive_mod_65536() {
    assert_eq!(simple_checksum(&[1, 2, 3], 0, 3), 6);
    assert_eq!(simple_checksum(&[9, 1, 2, 3], 1, 4), 6);
    let big = vec![0xffu8; 300];
    assert_eq!(simple_checksum(&big, 0, 300), 10964);
    let many = vec![0xffu8; 258];
    assert_eq!(simple_checksum(&many, 0, 258), 254);
    assert_eq!(simple_checksum(&[], 0, 0), 0);
}

#[test]
fn legacy_round_trip() {
    let key: Vec<u8> = (0u8..16).collect();
    let blob = legacy_blob(7, &key);
    assert_eq!(&blob[17..], &[0, 120]);
    match unwrap_legacy(&blob) {
        Ok(PlainSessionKey::V3_4 { sym_alg, key: ref k }) => {
            assert_eq!(sym_alg, SymmetricKeyAlgorithm::AES128);
            assert_eq!(*k, key);
        }
        other => panic!("unexpected {:?}", other),
    }
    let key: Vec<u8> = (200u8..232).collect();
    let blob = legacy_blob(9, &key);
    match unwrap_session_key(&blob, EskType::V3_4) {
        Ok(PlainSessionKey::V3_4 { sym_alg, key: ref k }) => {
            assert_eq!(sym_alg, SymmetricKeyAlgorithm::AES256);
            assert_eq!(*k, key);
        }
        other => panic!("unexpected {:?}", other),
    }
}

#[test]
fn legacy_single_byte_corruption_fails_checksum() {
    let key: Vec<u8> = (10u8..42).collect();
    let blob = legacy_blob(9, &key);
    for i in 1..blob.len() {
        let mut bad = blob.clone();
        bad[i] ^= 0x01;
        assert!(matches!(unwrap_legacy(&bad), Err(Error::ChecksumFailure)), "byte {}", i);
    }
}

#[test]
fn legacy_refusals() {
    assert!(matches!(unwrap_legacy(&[]), Err(Error::MalformedInput)));
    let key = [1u8; 16];
    assert!(matches!(unwrap_legacy(&legacy_blob(0, &key)), Err(Error::InvalidPolicy)));
    assert!(matches!(unwrap_legacy(&legacy_blob(9, &key)), Err(Error::MalformedInput)));
    let mut long = legacy_blob(7, &key);
    long.push(0);
    assert!(matches!(unwrap_legacy(&long), Err(Error::MalformedInput)));
}

#[test]
fn v6_blob_too_short() {
    assert!(matches!(unwrap_v6(&[]), Err(Error::MalformedInput)));
    assert!(matches!(unwrap_v6(&[5]), Err(Error::MalformedInput)));
    assert!(matches!(unwrap_session_key(&[5], EskType::V6), Err(Error::MalformedInput)));
}

#[test]
fn v6_blob_unwraps() {
    match unwrap_v6(&[1, 2, 0, 3]) {
        Ok(PlainSessionKey::V6 { ref key }) => assert_eq!(*key, vec![1, 2]),
        other => panic!("unexpected {:?}", other),
    }
    match unwrap_v6(&[0, 0]) {
        Ok(PlainSessionKey::V6 { ref key }) => assert!(key.is_empty()),
        other => panic!("unexpected {:?}", other),
    }
    assert!(matches!(unwrap_v6(&[1, 2, 0, 4]), Err(Error::ChecksumFailure)));
}

#[test]
fn cipher_key_sizes() {
    assert_eq!(SymmetricKeyAlgorithm::AES128.key_size(), 16);
    assert_eq!(SymmetricKeyAlgorithm::AES192.key_size(), 24);
    assert_eq!(SymmetricKeyAlgorithm::AES256.key_size(), 32);
    assert_eq!(SymmetricKeyAlgorithm::TripleDES.key_size(), 24);
    assert_eq!(SymmetricKeyAlgorithm::from_byte(9), SymmetricKeyAlgorithm::AES256);
    assert_eq!(SymmetricKeyAlgorithm::from_byte(99), SymmetricKeyAlgorithm::Other(99));
    assert_eq!(SymmetricKeyAlgorithm::Camellia256.to_byte(), 13);
}

#[test]
fn zeroize_empties_the_key() {
    let mut k = unwrap_v6(&[1, 2, 0, 3]).unwrap();
    k.zeroize();
    assert!(matches!(k, PlainSessionKey::V6 { ref key } if key.is_empty()));
    let key: Vec<u8> = (0u8..16).collect();
    let mut k = unwrap_legacy(&legacy_blob(7, &key)).unwrap();
    k.zeroize();
    assert!(matches!(
        k,
        PlainSessionKey::V3_4 { sym_alg: SymmetricKeyAlgorithm::AES128, ref key } if key.is_empty()
    ));
}

#[test]
fn session_keys_compare_by_variant_cipher_and_bytes() {
    let key: Vec<u8> = (0u8..16).collect();
    let a = unwrap_legacy(&legacy_blob(7, &key)).unwrap();
    let b = unwrap_legacy(&legacy_blob(7, &key)).unwrap();
    assert!(a == b);
    let mut other = key.clone();
    other[15] = 99;
    let c = unwrap_legacy(&legacy_blob(7, &other)).unwrap();
    assert!(a != c);
    let d = unwrap_legacy(&legacy_blob(4, &key)).unwrap();
    assert!(a != d);
    let e = PlainSessionKey::V6 { key: key.clone() };
    let f = PlainSessionKey::V5 { key: key.clone() };
    assert!(a != e);
    assert!(e != f);
    assert!(e == PlainSessionKey::V6 { key });
}

#[test]
fn legacy_cipher_byte_change_never_gives_original() {
    let key: Vec<u8> = (0u8..16).collect();
    let original = unwrap_legacy(&legacy_blob(7, &key)).unwrap();
    for v in 0u8..=255 {
        if v == 7 {
            continue;
        }
        let mut bad = legacy_blob(7, &key);
        bad[0] = v;
        if let Ok(got) = unwrap_legacy(&bad) {
            assert!(got != original, "cipher byte {}", v);
        }
    }
    let mut idea = legacy_blob(7, &key);
    idea[0] = 1;
    assert!(matches!(
        unwrap_legacy(&idea),
        Ok(PlainSessionKey::V3_4 { sym_alg: SymmetricKeyAlgorithm::IDEA, .. })
    ));
}
