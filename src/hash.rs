use vstd::prelude::*;
use vstd::string::{StrSliceExecFns, StringExecFns};

use digest::Digest;
use sha1_checked::CollisionResult;

use crate::error::Error;

verus! {

/// Hash algorithm identifiers, with a catch-all for unassigned values.
#[derive(Debug, Clone, Copy, PartialEq, Eq, Hash, Structural)]
pub enum HashAlgorithm {
    /// The "no hash" identifier.
    NoHash,
    MD5,
    SHA1,
    RIPEMD160,
    SHA2_256,
    SHA2_384,
    SHA2_512,
    SHA2_224,
    SHA3_256,
    SHA3_512,
    /// Kept for compatibility with GnuPG; never to be used.
    Private10,
    Other(u8),
}

/// MD5 of the input.
pub uninterp spec fn md5_of(d: Seq<u8>) -> Seq<u8>;

/// SHA-1 of the input, or `None` where collision detection fires.
pub uninterp spec fn sha1_checked_of(d: Seq<u8>) -> Option<Seq<u8>>;

/// RIPEMD-160 of the input.
pub uninterp spec fn ripemd160_of(d: Seq<u8>) -> Seq<u8>;

/// SHA-256 of the input.
pub uninterp spec fn sha256_of(d: Seq<u8>) -> Seq<u8>;

/// SHA-384 of the input.
pub uninterp spec fn sha384_of(d: Seq<u8>) -> Seq<u8>;

/// SHA-512 of the input.
pub uninterp spec fn sha512_of(d: Seq<u8>) -> Seq<u8>;

/// SHA-224 of the input.
pub uninterp spec fn sha224_of(d: Seq<u8>) -> Seq<u8>;

/// SHA3-256 of the input.
pub uninterp spec fn sha3_256_of(d: Seq<u8>) -> Seq<u8>;

/// SHA3-512 of the input.
pub uninterp spec fn sha3_512_of(d: Seq<u8>) -> Seq<u8>;

/// The lowercase form of a string.
pub uninterp spec fn lower_of(s: Seq<char>) -> Seq<char>;

/// Relies on md-5's `Md5::digest`: a 16-byte MD5 digest of the input.
#[verifier::external_body]
fn md5_digest(d: &[u8]) -> (r: Vec<u8>)
    ensures
        r@ == md5_of(d@),
        r@.len() == 16,
{
    md5::Md5::digest(d).to_vec()
}

/// Relies on sha1-checked's `Sha1::try_digest`: a 20-byte SHA-1 digest,
/// unless collision detection fired (whether mitigated or not).
#[verifier::external_body]
fn sha1_digest(d: &[u8]) -> (r: Option<Vec<u8>>)
    ensures
        match r {
            Some(v) => sha1_checked_of(d@) == Some(v@) && v@.len() == 20,
            None => sha1_checked_of(d@) is None,
        },
{
    match sha1_checked::Sha1::try_digest(d) {
        CollisionResult::Ok(out) => Some(out.to_vec()),
        CollisionResult::Mitigated(_) => None,
        CollisionResult::Collision(_) => None,
    }
}

/// Relies on ripemd's `Ripemd160::digest`: a 20-byte digest of the input.
#[verifier::external_body]
fn ripemd160_digest(d: &[u8]) -> (r: Vec<u8>)
    ensures
        r@ == ripemd160_of(d@),
        r@.len() == 20,
{
    ripemd::Ripemd160::digest(d).to_vec()
}

/// Relies on sha2's `Sha256::digest`: a 32-byte digest of the input.
#[verifier::external_body]
fn sha256_digest(d: &[u8]) -> (r: Vec<u8>)
    ensures
        r@ == sha256_of(d@),
        r@.len() == 32,
{
    sha2::Sha256::digest(d).to_vec()
}

/// Relies on sha2's `Sha384::digest`: a 48-byte digest of the input.
#[verifier::external_body]
fn sha384_digest(d: &[u8]) -> (r: Vec<u8>)
    ensures
        r@ == sha384_of(d@),
        r@.len() == 48,
{
    sha2::Sha384::digest(d).to_vec()
}

/// Relies on sha2's `Sha512::digest`: a 64-byte digest of the input.
#[verifier::external_body]
fn sha512_digest(d: &[u8]) -> (r: Vec<u8>)
    ensures
        r@ == sha512_of(d@),
        r@.len() == 64,
{
    sha2::Sha512::digest(d).to_vec()
}

/// Relies on sha2's `Sha224::digest`: a 28-byte digest of the input.
#[verifier::external_body]
fn sha224_digest(d: &[u8]) -> (r: Vec<u8>)
    ensures
        r@ == sha224_of(d@),
        r@.len() == 28,
{
    sha2::Sha224::digest(d).to_vec()
}

/// Relies on sha3's `Sha3_256::digest`: a 32-byte digest of the input.
#[verifier::external_body]
fn sha3_256_digest(d: &[u8]) -> (r: Vec<u8>)
    ensures
        r@ == sha3_256_of(d@),
        r@.len() == 32,
{
    sha3::Sha3_256::digest(d).to_vec()
}

/// Relies on sha3's `Sha3_512::digest`: a 64-byte digest of the input.
#[verifier::external_body]
fn sha3_512_digest(d: &[u8]) -> (r: Vec<u8>)
    ensures
        r@ == sha3_512_of(d@),
        r@.len() == 64,
{
    sha3::Sha3_512::digest(d).to_vec()
}

/// Relies on std's `str::to_lowercase`: the result depends on the text alone.
#[verifier::external_body]
fn lowercase(s: &str) -> (r: String)
    ensures
        r@ == lower_of(s@),
{
    s.to_lowercase()
}

/// The character of a decimal digit.
pub open spec fn digit_char(d: nat) -> char {
    if d == 0 { '0' }
    else if d == 1 { '1' }
    else if d == 2 { '2' }
    else if d == 3 { '3' }
    else if d == 4 { '4' }
    else if d == 5 { '5' }
    else if d == 6 { '6' }
    else if d == 7 { '7' }
    else if d == 8 { '8' }
    else { '9' }
}

/// The decimal form of a byte, without leading zeros.
pub open spec fn decimal_of(n: u8) -> Seq<char> {
    if n < 10 {
        seq![digit_char(n as nat)]
    } else if n < 100 {
        seq![digit_char(n as nat / 10), digit_char(n as nat % 10)]
    } else {
        seq![digit_char(n as nat / 100), digit_char((n as nat / 10) % 10), digit_char(n as nat % 10)]
    }
}

fn digit_str(d: u8) -> (r: &'static str)
    requires
        d < 10,
    ensures
        r@ == seq![digit_char(d as nat)],
{
    proof {
        reveal_strlit("0");
        reveal_strlit("1");
        reveal_strlit("2");
        reveal_strlit("3");
        reveal_strlit("4");
        reveal_strlit("5");
        reveal_strlit("6");
        reveal_strlit("7");
        reveal_strlit("8");
        reveal_strlit("9");
    }
    if d == 0 { "0" }
    else if d == 1 { "1" }
    else if d == 2 { "2" }
    else if d == 3 { "3" }
    else if d == 4 { "4" }
    else if d == 5 { "5" }
    else if d == 6 { "6" }
    else if d == 7 { "7" }
    else if d == 8 { "8" }
    else { "9" }
}

/// The decimal digits of a byte.
fn decimal(n: u8) -> (r: String)
    ensures
        r@ == decimal_of(n),
{
    let mut r = String::new();
    if n >= 100 {
        r.append(digit_str(n / 100));
    }
    if n >= 10 {
        r.append(digit_str((n / 10) % 10));
    }
    r.append(digit_str(n % 10));
    assert(r@ =~= decimal_of(n));
    r
}

/// The identifier that a wire value names; unassigned values are kept as `Other`.
pub open spec fn hash_of_byte(b: u8) -> HashAlgorithm {
    match b {
        0 => HashAlgorithm::NoHash,
        1 => HashAlgorithm::MD5,
        2 => HashAlgorithm::SHA1,
        3 => HashAlgorithm::RIPEMD160,
        8 => HashAlgorithm::SHA2_256,
        9 => HashAlgorithm::SHA2_384,
        10 => HashAlgorithm::SHA2_512,
        11 => HashAlgorithm::SHA2_224,
        12 => HashAlgorithm::SHA3_256,
        14 => HashAlgorithm::SHA3_512,
        110 => HashAlgorithm::Private10,
        _ => HashAlgorithm::Other(b),
    }
}

/// The wire value of an identifier.
pub open spec fn hash_to_byte(a: HashAlgorithm) -> u8 {
    match a {
        HashAlgorithm::NoHash => 0,
        HashAlgorithm::MD5 => 1,
        HashAlgorithm::SHA1 => 2,
        HashAlgorithm::RIPEMD160 => 3,
        HashAlgorithm::SHA2_256 => 8,
        HashAlgorithm::SHA2_384 => 9,
        HashAlgorithm::SHA2_512 => 10,
        HashAlgorithm::SHA2_224 => 11,
        HashAlgorithm::SHA3_256 => 12,
        HashAlgorithm::SHA3_512 => 14,
        HashAlgorithm::Private10 => 110,
        HashAlgorithm::Other(b) => b,
    }
}

/// Salt size of v6 signatures for each algorithm that supports them.
pub open spec fn salt_len_spec(a: HashAlgorithm) -> Option<usize> {
    match a {
        HashAlgorithm::SHA2_224 => Some(16),
        HashAlgorithm::SHA2_256 => Some(16),
        HashAlgorithm::SHA2_384 => Some(24),
        HashAlgorithm::SHA2_512 => Some(32),
        HashAlgorithm::SHA3_256 => Some(16),
        HashAlgorithm::SHA3_512 => Some(32),
        _ => None,
    }
}

/// Digest size in bytes of each implemented algorithm.
pub open spec fn digest_size_spec(a: HashAlgorithm) -> Option<usize> {
    match a {
        HashAlgorithm::MD5 => Some(16),
        HashAlgorithm::SHA1 => Some(20),
        HashAlgorithm::RIPEMD160 => Some(20),
        HashAlgorithm::SHA2_256 => Some(32),
        HashAlgorithm::SHA2_384 => Some(48),
        HashAlgorithm::SHA2_512 => Some(64),
        HashAlgorithm::SHA2_224 => Some(28),
        HashAlgorithm::SHA3_256 => Some(32),
        HashAlgorithm::SHA3_512 => Some(64),
        _ => None,
    }
}

/// MD5, SHA-1 and RIPEMD-160 are weak.
pub open spec fn is_weak_spec(a: HashAlgorithm) -> bool {
    a == HashAlgorithm::MD5 || a == HashAlgorithm::SHA1 || a == HashAlgorithm::RIPEMD160
}

/// The digest of `d` under `a`, or why there is none.
pub open spec fn digest_spec(a: HashAlgorithm, d: Seq<u8>) -> Result<Seq<u8>, Error> {
    match a {
        HashAlgorithm::MD5 => Ok(md5_of(d)),
        HashAlgorithm::SHA1 => match sha1_checked_of(d) {
            Some(h) => Ok(h),
            None => Err(Error::HashCollision),
        },
        HashAlgorithm::RIPEMD160 => Ok(ripemd160_of(d)),
        HashAlgorithm::SHA2_256 => Ok(sha256_of(d)),
        HashAlgorithm::SHA2_384 => Ok(sha384_of(d)),
        HashAlgorithm::SHA2_512 => Ok(sha512_of(d)),
        HashAlgorithm::SHA2_224 => Ok(sha224_of(d)),
        HashAlgorithm::SHA3_256 => Ok(sha3_256_of(d)),
        HashAlgorithm::SHA3_512 => Ok(sha3_512_of(d)),
        HashAlgorithm::Private10 => Err(Error::Unsupported),
        _ => Err(Error::UnsupportedAlgorithm),
    }
}

/// A digest depends on the algorithm and the input alone: equal inputs give
/// equal outcomes, digest or error.
pub proof fn lemma_digest_deterministic(alg: HashAlgorithm, d1: Seq<u8>, d2: Seq<u8>)
    requires
        d1 == d2,
    ensures
        digest_spec(alg, d1) == digest_spec(alg, d2),
{
}

/// The canonical display name.
pub open spec fn display_name(a: HashAlgorithm) -> Seq<char> {
    match a {
        HashAlgorithm::NoHash => "NONE"@,
        HashAlgorithm::MD5 => "MD5"@,
        HashAlgorithm::SHA1 => "SHA1"@,
        HashAlgorithm::RIPEMD160 => "RIPEMD160"@,
        HashAlgorithm::SHA2_256 => "SHA256"@,
        HashAlgorithm::SHA2_384 => "SHA384"@,
        HashAlgorithm::SHA2_512 => "SHA512"@,
        HashAlgorithm::SHA2_224 => "SHA224"@,
        HashAlgorithm::SHA3_256 => "SHA3-256"@,
        HashAlgorithm::SHA3_512 => "SHA3-512"@,
        HashAlgorithm::Private10 => "Private10"@,
        HashAlgorithm::Other(n) => decimal_of(n),
    }
}

/// The identifier that a lowercase name stands for.
pub open spec fn name_to_hash(s: Seq<char>) -> Result<HashAlgorithm, Error> {
    if s == "none"@ { Ok(HashAlgorithm::NoHash) }
    else if s == "md5"@ { Ok(HashAlgorithm::MD5) }
    else if s == "sha1"@ { Ok(HashAlgorithm::SHA1) }
    else if s == "ripemd160"@ { Ok(HashAlgorithm::RIPEMD160) }
    else if s == "sha256"@ { Ok(HashAlgorithm::SHA2_256) }
    else if s == "sha384"@ { Ok(HashAlgorithm::SHA2_384) }
    else if s == "sha512"@ { Ok(HashAlgorithm::SHA2_512) }
    else if s == "sha224"@ { Ok(HashAlgorithm::SHA2_224) }
    else if s == "sha3-256"@ { Ok(HashAlgorithm::SHA3_256) }
    else if s == "sha3-512"@ { Ok(HashAlgorithm::SHA3_512) }
    else if s == "private10"@ { Ok(HashAlgorithm::Private10) }
    else { Err(Error::UnknownName) }
}

fn same_text(a: &str, b: &str) -> (r: bool)
    ensures
        r == (a@ == b@),
{
    let n = a.unicode_len();
    if n != b.unicode_len() {
        return false;
    }
    let mut i: usize = 0;
    while i < n
        invariant
            n == a@.len() == b@.len(),
            i <= n,
            forall|j: int| 0 <= j < i ==> a@[j] == b@[j],
        decreases n - i,
    {
        if a.get_char(i) != b.get_char(i) {
            return false;
        }
        i = i + 1;
    }
    assert(a@ =~= b@);
    true
}

impl HashAlgorithm {
    /// Reads a wire value.
    pub fn from_byte(b: u8) -> (r: HashAlgorithm)
        ensures
            r == hash_of_byte(b),
    {
        match b {
            0 => HashAlgorithm::NoHash,
            1 => HashAlgorithm::MD5,
            2 => HashAlgorithm::SHA1,
            3 => HashAlgorithm::RIPEMD160,
            8 => HashAlgorithm::SHA2_256,
            9 => HashAlgorithm::SHA2_384,
            10 => HashAlgorithm::SHA2_512,
            11 => HashAlgorithm::SHA2_224,
            12 => HashAlgorithm::SHA3_256,
            14 => HashAlgorithm::SHA3_512,
            110 => HashAlgorithm::Private10,
            _ => HashAlgorithm::Other(b),
        }
    }

    /// The wire value.
    pub fn to_byte(&self) -> (r: u8)
        ensures
            r == hash_to_byte(*self),
    {
        match self {
            HashAlgorithm::NoHash => 0,
            HashAlgorithm::MD5 => 1,
            HashAlgorithm::SHA1 => 2,
            HashAlgorithm::RIPEMD160 => 3,
            HashAlgorithm::SHA2_256 => 8,
            HashAlgorithm::SHA2_384 => 9,
            HashAlgorithm::SHA2_512 => 10,
            HashAlgorithm::SHA2_224 => 11,
            HashAlgorithm::SHA3_256 => 12,
            HashAlgorithm::SHA3_512 => 14,
            HashAlgorithm::Private10 => 110,
            HashAlgorithm::Other(b) => *b,
        }
    }

    /// Salt size of v6 signatures, where the algorithm supports them.
    pub fn salt_len(&self) -> (r: Option<usize>)
        ensures
            r == salt_len_spec(*self),
    {
        match self {
            HashAlgorithm::SHA2_224 => Some(16),
            HashAlgorithm::SHA2_256 => Some(16),
            HashAlgorithm::SHA2_384 => Some(24),
            HashAlgorithm::SHA2_512 => Some(32),
            HashAlgorithm::SHA3_256 => Some(16),
            HashAlgorithm::SHA3_512 => Some(32),
            _ => None,
        }
    }

    /// Digest size in bytes, where the algorithm is implemented.
    pub fn digest_size(self) -> (r: Option<usize>)
        ensures
            r == digest_size_spec(self),
    {
        match self {
            HashAlgorithm::MD5 => Some(16),
            HashAlgorithm::SHA1 => Some(20),
            HashAlgorithm::RIPEMD160 => Some(20),
            HashAlgorithm::SHA2_256 => Some(32),
            HashAlgorithm::SHA2_384 => Some(48),
            HashAlgorithm::SHA2_512 => Some(64),
            HashAlgorithm::SHA2_224 => Some(28),
            HashAlgorithm::SHA3_256 => Some(32),
            HashAlgorithm::SHA3_512 => Some(64),
            _ => None,
        }
    }

    /// Whether the algorithm is known to be weak.
    pub fn is_weak(&self) -> (r: bool)
        ensures
            r == is_weak_spec(*self),
    {
        match self {
            HashAlgorithm::MD5 => true,
            HashAlgorithm::SHA1 => true,
            HashAlgorithm::RIPEMD160 => true,
            _ => false,
        }
    }

    /// One-shot digest of `data`. Succeeds exactly for the implemented
    /// algorithms (SHA-1 only where no collision attack is detected), and a
    /// digest is then as long as `digest_size` says.
    pub fn digest(self, data: &[u8]) -> (r: Result<Vec<u8>, Error>)
        ensures
            match r {
                Ok(v) => digest_spec(self, data@) == Ok::<Seq<u8>, Error>(v@)
                    && digest_size_spec(self) == Some(v@.len() as usize),
                Err(e) => digest_spec(self, data@) == Err::<Seq<u8>, Error>(e),
            },
    {
        match self {
            HashAlgorithm::MD5 => Ok(md5_digest(data)),
            HashAlgorithm::SHA1 => match sha1_digest(data) {
                Some(v) => Ok(v),
                None => Err(Error::HashCollision),
            },
            HashAlgorithm::RIPEMD160 => Ok(ripemd160_digest(data)),
            HashAlgorithm::SHA2_256 => Ok(sha256_digest(data)),
            HashAlgorithm::SHA2_384 => Ok(sha384_digest(data)),
            HashAlgorithm::SHA2_512 => Ok(sha512_digest(data)),
            HashAlgorithm::SHA2_224 => Ok(sha224_digest(data)),
            HashAlgorithm::SHA3_256 => Ok(sha3_256_digest(data)),
            HashAlgorithm::SHA3_512 => Ok(sha3_512_digest(data)),
            HashAlgorithm::Private10 => Err(Error::Unsupported),
            _ => Err(Error::UnsupportedAlgorithm),
        }
    }

    /// The canonical display name ("SHA3-512"); unassigned values show as
    /// their number.
    pub fn to_string(&self) -> (r: String)
        ensures
            r@ == display_name(*self),
    {
        match self {
            HashAlgorithm::NoHash => "NONE".to_owned(),
            HashAlgorithm::MD5 => "MD5".to_owned(),
            HashAlgorithm::SHA1 => "SHA1".to_owned(),
            HashAlgorithm::RIPEMD160 => "RIPEMD160".to_owned(),
            HashAlgorithm::SHA2_256 => "SHA256".to_owned(),
            HashAlgorithm::SHA2_384 => "SHA384".to_owned(),
            HashAlgorithm::SHA2_512 => "SHA512".to_owned(),
            HashAlgorithm::SHA2_224 => "SHA224".to_owned(),
            HashAlgorithm::SHA3_256 => "SHA3-256".to_owned(),
            HashAlgorithm::SHA3_512 => "SHA3-512".to_owned(),
            HashAlgorithm::Private10 => "Private10".to_owned(),
            HashAlgorithm::Other(n) => decimal(*n),
        }
    }

    /// The identifier named by an already lowercased name.
    pub fn from_lowercase_name(s: &str) -> (r: Result<HashAlgorithm, Error>)
        ensures
            r == name_to_hash(s@),
    {
        if same_text(s, "none") { Ok(HashAlgorithm::NoHash) }
        else if same_text(s, "md5") { Ok(HashAlgorithm::MD5) }
        else if same_text(s, "sha1") { Ok(HashAlgorithm::SHA1) }
        else if same_text(s, "ripemd160") { Ok(HashAlgorithm::RIPEMD160) }
        else if same_text(s, "sha256") { Ok(HashAlgorithm::SHA2_256) }
        else if same_text(s, "sha384") { Ok(HashAlgorithm::SHA2_384) }
        else if same_text(s, "sha512") { Ok(HashAlgorithm::SHA2_512) }
        else if same_text(s, "sha224") { Ok(HashAlgorithm::SHA2_224) }
        else if same_text(s, "sha3-256") { Ok(HashAlgorithm::SHA3_256) }
        else if same_text(s, "sha3-512") { Ok(HashAlgorithm::SHA3_512) }
        else if same_text(s, "private10") { Ok(HashAlgorithm::Private10) }
        else { Err(Error::UnknownName) }
    }

    /// The identifier named by `s`, ignoring case.
    pub fn from_name(s: &str) -> (r: Result<HashAlgorithm, Error>)
        ensures
            r == name_to_hash(lower_of(s@)),
    {
        let lowered = lowercase(s);
        HashAlgorithm::from_lowercase_name(lowered.as_str())
    }
}

impl Default for HashAlgorithm {
    fn default() -> (r: HashAlgorithm)
        ensures
            r == HashAlgorithm::SHA2_256,
    {
        HashAlgorithm::SHA2_256
    }
}

impl std::str::FromStr for HashAlgorithm {
    type Err = Error;

    fn from_str(s: &str) -> Result<HashAlgorithm, Error> {
        HashAlgorithm::from_name(s)
    }
}

} // verus!
