use vstd::prelude::*;

use zeroize::Zeroize;

use crate::error::Error;
use crate::sym::{key_size_of, sym_of_byte, sym_to_byte, SymmetricKeyAlgorithm};

verus! {

/// The packet-format family that produced an encrypted session key.
#[derive(Debug, Clone, Copy, PartialEq, Eq, Structural)]
pub enum EskType {
    /// v3 public-key or v4 password packets: the cipher travels with the key.
    V3_4,
    /// v6 packets: the data packet names the cipher.
    V6,
}

/// A recovered session key.
///
/// A `V3_4` key goes with v1 encrypted-data packets, a `V6` key only with
/// v2 ones.
#[derive(Debug, Clone)]
pub enum PlainSessionKey {
    V3_4 { sym_alg: SymmetricKeyAlgorithm, key: Vec<u8> },
    V5 { key: Vec<u8> },
    V6 { key: Vec<u8> },
}

/// Relies on zeroize's `Vec::zeroize`: the bytes and spare capacity are
/// overwritten with zeros, then the vector is cleared.
#[verifier::external_body]
pub(crate) fn wipe(v: &mut Vec<u8>)
    ensures
        final(v)@.len() == 0,
    opens_invariants none
    no_unwind
{
    v.zeroize();
}

impl PlainSessionKey {
    /// Overwrites the key bytes with zeros and leaves them empty; the
    /// variant and cipher stay.
    pub fn zeroize(&mut self)
        ensures
            match (*old(self), *final(self)) {
                (PlainSessionKey::V3_4 { sym_alg: a, .. }, PlainSessionKey::V3_4 { sym_alg: b, key }) =>
                    a == b && key@.len() == 0,
                (PlainSessionKey::V5 { .. }, PlainSessionKey::V5 { key }) => key@.len() == 0,
                (PlainSessionKey::V6 { .. }, PlainSessionKey::V6 { key }) => key@.len() == 0,
                _ => false,
            },
        opens_invariants none
        no_unwind
    {
        match self {
            PlainSessionKey::V3_4 { key, .. } => wipe(key),
            PlainSessionKey::V5 { key } => wipe(key),
            PlainSessionKey::V6 { key } => wipe(key),
        }
    }
}

impl Drop for PlainSessionKey {
    fn drop(&mut self)
        opens_invariants none
        no_unwind
    {
        self.zeroize();
    }
}

/// What a session key holds, as mathematical values.
pub enum SessionKeyModel {
    V3_4(SymmetricKeyAlgorithm, Seq<u8>),
    V5(Seq<u8>),
    V6(Seq<u8>),
}

impl View for PlainSessionKey {
    type V = SessionKeyModel;

    open spec fn view(&self) -> SessionKeyModel {
        match self {
            PlainSessionKey::V3_4 { sym_alg, key } => SessionKeyModel::V3_4(*sym_alg, key@),
            PlainSessionKey::V5 { key } => SessionKeyModel::V5(key@),
            PlainSessionKey::V6 { key } => SessionKeyModel::V6(key@),
        }
    }
}

/// Compares two byte strings of equal length without branching on their
/// contents.
fn bytes_equal(a: &Vec<u8>, b: &Vec<u8>) -> (r: bool)
    ensures
        r == (a@ == b@),
{
    if a.len() != b.len() {
        return false;
    }
    let mut diff: u8 = 0;
    let mut i: usize = 0;
    while i < a.len()
        invariant
            i <= a@.len() == b@.len(),
            (diff == 0) <==> (forall|j: int| 0 <= j < i ==> a@[j] == b@[j]),
        decreases a@.len() - i,
    {
        let x = a[i];
        let y = b[i];
        assert(((diff | (x ^ y)) == 0u8) <==> (diff == 0u8 && x == y)) by (bit_vector);
        diff = diff | (x ^ y);
        i = i + 1;
    }
    if diff == 0 {
        assert(a@ =~= b@);
        true
    } else {
        false
    }
}

impl PartialEq for PlainSessionKey {
    fn eq(&self, other: &PlainSessionKey) -> (r: bool) {
        match (self, other) {
            (
                PlainSessionKey::V3_4 { sym_alg: a, key: k },
                PlainSessionKey::V3_4 { sym_alg: b, key: l },
            ) => {
                let same_key = bytes_equal(k, l);
                *a == *b && same_key
            },
            (PlainSessionKey::V5 { key: k }, PlainSessionKey::V5 { key: l }) => bytes_equal(k, l),
            (PlainSessionKey::V6 { key: k }, PlainSessionKey::V6 { key: l }) => bytes_equal(k, l),
            _ => false,
        }
    }
}

impl vstd::std_specs::cmp::PartialEqSpecImpl for PlainSessionKey {
    open spec fn obeys_eq_spec() -> bool {
        true
    }

    open spec fn eq_spec(&self, other: &PlainSessionKey) -> bool {
        self@ == other@
    }
}

impl Eq for PlainSessionKey {
}

/// A recovery outcome with the key replaced by its model.
pub open spec fn outcome(r: Result<PlainSessionKey, Error>) -> Result<SessionKeyModel, Error> {
    match r {
        Ok(k) => Ok(k@),
        Err(e) => Err(e),
    }
}

/// Sum of all bytes, unbounded.
pub open spec fn byte_sum(s: Seq<u8>) -> nat
    decreases s.len(),
{
    if s.len() == 0 {
        0
    } else {
        byte_sum(s.drop_last()) + s.last() as nat
    }
}

/// The simple checksum: the sum of the bytes modulo 2^16.
pub open spec fn checksum_of(s: Seq<u8>) -> nat {
    byte_sum(s) % 65536
}

/// The checksum stored big-endian in `hi`, `lo` matches `key`.
pub open spec fn checksum_matches(key: Seq<u8>, hi: u8, lo: u8) -> bool {
    checksum_of(key) == hi as nat * 256 + lo as nat
}

/// A legacy blob: cipher byte, key, two checksum bytes.
pub open spec fn legacy_unwrap(b: Seq<u8>) -> Result<SessionKeyModel, Error> {
    if b.len() == 0 {
        Err(Error::MalformedInput)
    } else if sym_of_byte(b[0]) == SymmetricKeyAlgorithm::Plaintext {
        Err(Error::InvalidPolicy)
    } else if b.len() != key_size_of(sym_of_byte(b[0])) + 3 {
        Err(Error::MalformedInput)
    } else if !checksum_matches(b.subrange(1, b.len() - 2), b[b.len() - 2], b[b.len() - 1]) {
        Err(Error::ChecksumFailure)
    } else {
        Ok(SessionKeyModel::V3_4(sym_of_byte(b[0]), b.subrange(1, b.len() - 2)))
    }
}

/// A v6 blob: key, two checksum bytes.
pub open spec fn v6_unwrap(b: Seq<u8>) -> Result<SessionKeyModel, Error> {
    if b.len() < 2 {
        Err(Error::MalformedInput)
    } else if !checksum_matches(b.subrange(0, b.len() - 2), b[b.len() - 2], b[b.len() - 1]) {
        Err(Error::ChecksumFailure)
    } else {
        Ok(SessionKeyModel::V6(b.subrange(0, b.len() - 2)))
    }
}

/// The shared post-processing of a raw decrypted blob.
pub open spec fn unwrap_spec(b: Seq<u8>, typ: EskType) -> Result<SessionKeyModel, Error> {
    match typ {
        EskType::V3_4 => legacy_unwrap(b),
        EskType::V6 => v6_unwrap(b),
    }
}

/// A legacy blob built from a cipher's wire value and a key: that byte, the
/// key, and the key's checksum big-endian.
pub open spec fn legacy_blob(alg: u8, key: Seq<u8>) -> Seq<u8> {
    seq![alg] + key + seq![(checksum_of(key) / 256) as u8, (checksum_of(key) % 256) as u8]
}

/// Changing the cipher byte of a valid legacy blob never gives back the
/// original cipher and key.
pub proof fn lemma_legacy_cipher_byte_change(alg: u8, key: Seq<u8>, v: u8)
    requires
        sym_of_byte(alg) != SymmetricKeyAlgorithm::Plaintext,
        key.len() == key_size_of(sym_of_byte(alg)),
        v != alg,
    ensures
        legacy_unwrap(legacy_blob(alg, key).update(0, v)) != Ok::<SessionKeyModel, Error>(
            SessionKeyModel::V3_4(sym_of_byte(alg), key),
        ),
{
    let b2 = legacy_blob(alg, key).update(0, v);
    assert(b2[0] == v);
    assert(sym_to_byte(sym_of_byte(v)) == v);
    assert(sym_to_byte(sym_of_byte(alg)) == alg);
}

/// Building a legacy blob from an encrypting cipher and a key of its size,
/// then unwrapping it, gives back that cipher and key.
pub proof fn lemma_legacy_round_trip(alg: u8, key: Seq<u8>)
    requires
        sym_of_byte(alg) != SymmetricKeyAlgorithm::Plaintext,
        key.len() == key_size_of(sym_of_byte(alg)),
    ensures
        legacy_unwrap(legacy_blob(alg, key)) == Ok::<SessionKeyModel, Error>(
            SessionKeyModel::V3_4(sym_of_byte(alg), key),
        ),
{
    let b = legacy_blob(alg, key);
    let c = checksum_of(key);
    assert(b.subrange(1, b.len() - 2) =~= key);
    assert(b[b.len() - 2] == (c / 256) as u8);
    assert(b[b.len() - 1] == (c % 256) as u8);
    assert((c / 256) * 256 + c % 256 == c) by (nonlinear_arith);
}

proof fn lemma_byte_sum_update(s: Seq<u8>, j: int, v: u8)
    requires
        0 <= j < s.len(),
    ensures
        byte_sum(s.update(j, v)) == byte_sum(s) - s[j] + v,
    decreases s.len(),
{
    if j == s.len() - 1 {
        assert(s.update(j, v).drop_last() =~= s.drop_last());
    } else {
        lemma_byte_sum_update(s.drop_last(), j, v);
        assert(s.update(j, v).drop_last() =~= s.drop_last().update(j, v));
    }
}

/// Changing any one byte after the cipher byte of a valid legacy blob makes
/// its checksum fail.
pub proof fn lemma_legacy_corruption(alg: u8, key: Seq<u8>, i: int, v: u8)
    requires
        sym_of_byte(alg) != SymmetricKeyAlgorithm::Plaintext,
        key.len() == key_size_of(sym_of_byte(alg)),
        1 <= i < key.len() + 3,
        v != legacy_blob(alg, key)[i],
    ensures
        legacy_unwrap(legacy_blob(alg, key).update(i, v)) == Err::<SessionKeyModel, Error>(
            Error::ChecksumFailure,
        ),
{
    let b = legacy_blob(alg, key);
    let b2 = b.update(i, v);
    let n = b.len();
    let c = checksum_of(key);
    assert(b2[0] == b[0]);
    assert((c / 256) * 256 + c % 256 == c) by (nonlinear_arith);
    if i < n - 2 {
        let k2 = key.update(i - 1, v);
        assert(b2.subrange(1, n - 2) =~= k2);
        lemma_byte_sum_update(key, i - 1, v);
        let s = byte_sum(key) as int;
        let s2 = byte_sum(k2) as int;
        let a = key[i - 1] as int;
        assert(s2 == s - a + v);
        if s2 % 65536 == s % 65536 {
            vstd::arithmetic::div_mod::lemma_mod_equivalence(s2, s, 65536);
            vstd::arithmetic::div_mod::lemma_mod_equivalence(s, s2, 65536);
            if v > a {
                vstd::arithmetic::div_mod::lemma_small_mod((v - a) as nat, 65536);
            } else {
                vstd::arithmetic::div_mod::lemma_small_mod((a - v) as nat, 65536);
            }
        }
        assert(b2[n - 2] == b[n - 2] && b2[n - 1] == b[n - 1]);
    } else {
        assert(b2.subrange(1, n - 2) =~= key);
        assert(b2[n - 2] as int * 256 + b2[n - 1] as int != c) by (nonlinear_arith)
            requires
                (c / 256) * 256 + c % 256 == c,
                c < 65536,
                (i == n - 2 && b2[n - 2] != (c / 256) as u8 && b2[n - 1] == (c % 256) as u8)
                    || (i == n - 1 && b2[n - 2] == (c / 256) as u8 && b2[n - 1] != (c % 256) as u8),
        ;
    }
}

proof fn lemma_byte_sum_push(s: Seq<u8>, b: u8)
    ensures
        byte_sum(s.push(b)) == byte_sum(s) + b,
{
    assert(s.push(b).drop_last() =~= s);
}

/// Computes the simple checksum of `key[from..to]`.
pub fn simple_checksum(key: &[u8], from: usize, to: usize) -> (r: u16)
    requires
        from <= to <= key@.len(),
    ensures
        r as nat == checksum_of(key@.subrange(from as int, to as int)),
{
    let mut sum: u32 = 0;
    let mut i: usize = from;
    while i < to
        invariant
            from <= i <= to <= key@.len(),
            sum < 65536,
            sum as nat == checksum_of(key@.subrange(from as int, i as int)),
        decreases to - i,
    {
        proof {
            let s = key@.subrange(from as int, i as int);
            assert(key@.subrange(from as int, i + 1) =~= s.push(key@[i as int]));
            lemma_byte_sum_push(s, key@[i as int]);
            vstd::arithmetic::div_mod::lemma_add_mod_noop(
                byte_sum(s) as int,
                key@[i as int] as int,
                65536,
            );
            vstd::arithmetic::div_mod::lemma_small_mod(key@[i as int] as nat, 65536);
            vstd::arithmetic::div_mod::lemma_small_mod(sum as nat, 65536);
        }
        sum = (sum + key[i] as u32) % 65536;
        i = i + 1;
    }
    sum as u16
}

/// Checks the big-endian checksum in `b[at]`, `b[at + 1]` against `b[from..to]`.
fn checksum_holds(b: &[u8], from: usize, to: usize, at: usize) -> (r: bool)
    requires
        from <= to <= b@.len(),
        at + 1 < b@.len(),
    ensures
        r == checksum_matches(b@.subrange(from as int, to as int), b@[at as int], b@[at + 1]),
{
    let c = simple_checksum(b, from, to);
    c as u32 == b[at] as u32 * 256 + b[at + 1] as u32
}

/// Copies `b[from..to]`.
pub(crate) fn copy_range(b: &[u8], from: usize, to: usize) -> (r: Vec<u8>)
    requires
        from <= to <= b@.len(),
    ensures
        r@ == b@.subrange(from as int, to as int),
{
    let mut r: Vec<u8> = Vec::new();
    let mut i: usize = from;
    while i < to
        invariant
            from <= i <= to <= b@.len(),
            r@ == b@.subrange(from as int, i as int),
        decreases to - i,
    {
        r.push(b[i]);
        i = i + 1;
        assert(r@ =~= b@.subrange(from as int, i as int));
    }
    r
}

/// Unwraps a legacy blob: cipher byte, key of that cipher's size, checksum.
pub fn unwrap_legacy(b: &[u8]) -> (r: Result<PlainSessionKey, Error>)
    ensures
        outcome(r) == legacy_unwrap(b@),
{
    if b.len() == 0 {
        return Err(Error::MalformedInput);
    }
    let sym_alg = SymmetricKeyAlgorithm::from_byte(b[0]);
    if let SymmetricKeyAlgorithm::Plaintext = sym_alg {
        return Err(Error::InvalidPolicy);
    }
    let key_size = sym_alg.key_size();
    if b.len() < 3 || b.len() - 3 != key_size {
        return Err(Error::MalformedInput);
    }
    let n = b.len();
    if !checksum_holds(b, 1, n - 2, n - 2) {
        return Err(Error::ChecksumFailure);
    }
    let key = copy_range(b, 1, n - 2);
    Ok(PlainSessionKey::V3_4 { sym_alg, key })
}

/// Unwraps a v6 blob: key, checksum. Too short a blob is refused before
/// any slicing.
pub fn unwrap_v6(b: &[u8]) -> (r: Result<PlainSessionKey, Error>)
    ensures
        outcome(r) == v6_unwrap(b@),
        b@.len() < 2 ==> r == Err::<PlainSessionKey, Error>(Error::MalformedInput),
{
    let n = b.len();
    if n < 2 {
        return Err(Error::MalformedInput);
    }
    if !checksum_holds(b, 0, n - 2, n - 2) {
        return Err(Error::ChecksumFailure);
    }
    let key = copy_range(b, 0, n - 2);
    Ok(PlainSessionKey::V6 { key })
}

/// The shared post-processing of a raw decrypted blob, by packet family.
pub fn unwrap_session_key(b: &[u8], typ: EskType) -> (r: Result<PlainSessionKey, Error>)
    ensures
        outcome(r) == unwrap_spec(b@, typ),
{
    match typ {
        EskType::V3_4 => unwrap_legacy(b),
        EskType::V6 => unwrap_v6(b),
    }
}

} // verus!
