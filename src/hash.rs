//! Hex digests of byte buffers under one of three algorithms.

use vstd::prelude::*;

verus! {

/// The digest algorithm used to address file contents.
#[derive(Clone, Copy, Debug, PartialEq, Eq, Structural)]
pub enum HashType {
    MD5,
    SHA1,
    Blake3,
}

/// Whether two strings hold the same characters.
fn same_text(a: &str, b: &str) -> (r: bool)
    ensures
        r == (a@ == b@),
{
    let n = a.unicode_len();
    if n != b.unicode_len() {
        return false;
    }
    let mut i: usize = 0;
    while i < n
        invariant
            n == a@.len(),
            n == b@.len(),
            i <= n,
            a@.subrange(0, i as int) == b@.subrange(0, i as int),
        decreases n - i,
    {
        if a.get_char(i) != b.get_char(i) {
            assert(a@[i as int] != b@[i as int]);
            return false;
        }
        assert(a@.subrange(0, i + 1) == a@.subrange(0, i as int).push(a@[i as int]));
        assert(b@.subrange(0, i + 1) == b@.subrange(0, i as int).push(b@[i as int]));
        i = i + 1;
    }
    assert(a@ == a@.subrange(0, n as int));
    assert(b@ == b@.subrange(0, n as int));
    true
}

/// Raw MD5 digest of `data`, as computed by the `md-5` crate.
pub uninterp spec fn md5_of(data: Seq<u8>) -> Seq<u8>;

/// Raw SHA-1 digest of `data`, as computed by the `sha1` crate.
pub uninterp spec fn sha1_of(data: Seq<u8>) -> Seq<u8>;

/// Raw BLAKE3 digest (default 32-byte output) of `data`, as computed by the `blake3` crate.
pub uninterp spec fn blake3_of(data: Seq<u8>) -> Seq<u8>;

/// The lowercase hex digit for a value below 16.
pub open spec fn hex_digit(v: u8) -> char {
    if v < 10 {
        (('0' as u8) + v) as char
    } else {
        (('a' as u8) + (v - 10)) as char
    }
}

/// Lowercase hex rendering: two digits per byte, high nibble first.
pub open spec fn hex_of(bytes: Seq<u8>) -> Seq<char>
    decreases bytes.len(),
{
    if bytes.len() == 0 {
        Seq::empty()
    } else {
        let b = bytes.last();
        hex_of(bytes.drop_last()) + seq![hex_digit(b / 16), hex_digit(b % 16)]
    }
}

/// Hex rendering doubles the length.
pub proof fn lemma_hex_of_len(bytes: Seq<u8>)
    ensures
        hex_of(bytes).len() == 2 * bytes.len(),
    decreases bytes.len(),
{
    if bytes.len() > 0 {
        lemma_hex_of_len(bytes.drop_last());
    }
}

impl HashType {
    /// Parses an algorithm name: exactly "md5", "sha1" or "blake3".
    pub fn from_str(hash_type: &str) -> (r: Result<HashType, String>)
        ensures
            hash_type@ == "md5"@ ==> r == Ok::<HashType, String>(HashType::MD5),
            hash_type@ == "sha1"@ ==> r == Ok::<HashType, String>(HashType::SHA1),
            hash_type@ == "blake3"@ ==> r == Ok::<HashType, String>(HashType::Blake3),
            r is Err <==> (hash_type@ != "md5"@ && hash_type@ != "sha1"@ && hash_type@
                != "blake3"@),
    {
        proof {
            reveal_strlit("md5");
            reveal_strlit("sha1");
            reveal_strlit("blake3");
            assert("md5"@.len() == 3 && "sha1"@.len() == 4 && "blake3"@.len() == 6);
        }
        if same_text(hash_type, "md5") {
            Ok(HashType::MD5)
        } else if same_text(hash_type, "sha1") {
            Ok(HashType::SHA1)
        } else if same_text(hash_type, "blake3") {
            Ok(HashType::Blake3)
        } else {
            Err(String::from_str("Please provide a valid hash type: md5, sha1 or blake3"))
        }
    }

    /// Number of bytes in a raw digest of this algorithm.
    pub open spec fn digest_size(self) -> nat {
        match self {
            HashType::MD5 => 16,
            HashType::SHA1 => 20,
            HashType::Blake3 => 32,
        }
    }

    /// Number of hex characters in a rendered digest of this algorithm.
    pub open spec fn hex_len(self) -> nat {
        2 * self.digest_size()
    }

    /// The raw digest of `data` under this algorithm.
    pub open spec fn raw_digest(self, data: Seq<u8>) -> Seq<u8> {
        match self {
            HashType::MD5 => md5_of(data),
            HashType::SHA1 => sha1_of(data),
            HashType::Blake3 => blake3_of(data),
        }
    }

    /// The lowercase hex digest of `data` under this algorithm.
    pub open spec fn hex_digest(self, data: Seq<u8>) -> Seq<char> {
        hex_of(self.raw_digest(data))
    }
}

/// Relies on `md5::Md5` (crate `md-5`) through `Digest::digest`: a 16-byte
/// digest that depends on the input bytes alone.
#[verifier::external_body]
fn md5_digest(data: &[u8]) -> (r: Vec<u8>)
    ensures
        r@ == md5_of(data@),
        r@.len() == 16,
{
    <md5::Md5 as md5::Digest>::digest(data).to_vec()
}

/// Relies on `sha1::Sha1` through `Digest::digest`: a 20-byte digest that
/// depends on the input bytes alone.
#[verifier::external_body]
fn sha1_digest(data: &[u8]) -> (r: Vec<u8>)
    ensures
        r@ == sha1_of(data@),
        r@.len() == 20,
{
    <sha1::Sha1 as sha1::Digest>::digest(data).to_vec()
}

/// Relies on `blake3::hash` and `Hash::as_bytes`: a digest of `OUT_LEN`
/// (32) bytes that depends on the input bytes alone.
#[verifier::external_body]
fn blake3_digest(data: &[u8]) -> (r: Vec<u8>)
    ensures
        r@ == blake3_of(data@),
        r@.len() == 32,
{
    blake3::hash(data).as_bytes().to_vec()
}

/// Relies on `hex::encode`: each byte becomes two lowercase hex digits
/// ("0123456789abcdef"), high nibble first, in input order.
#[verifier::external_body]
fn hex_encode(bytes: &[u8]) -> (r: String)
    ensures
        r@ == hex_of(bytes@),
{
    hex::encode(bytes)
}

/// Hex MD5 digest of `data`: 32 lowercase hex characters.
pub fn md5_hash(data: &[u8]) -> (r: String)
    ensures
        r@ == HashType::MD5.hex_digest(data@),
        r@.len() == 32,
{
    let raw = md5_digest(data);
    proof {
        lemma_hex_of_len(raw@);
    }
    hex_encode(raw.as_slice())
}

/// Hex SHA-1 digest of `data`: 40 lowercase hex characters.
pub fn sha1_hash(data: &[u8]) -> (r: String)
    ensures
        r@ == HashType::SHA1.hex_digest(data@),
        r@.len() == 40,
{
    let raw = sha1_digest(data);
    proof {
        lemma_hex_of_len(raw@);
    }
    hex_encode(raw.as_slice())
}

/// Hex BLAKE3 digest of `data`: 64 lowercase hex characters.
pub fn blake3_hash(data: &[u8]) -> (r: String)
    ensures
        r@ == HashType::Blake3.hex_digest(data@),
        r@.len() == 64,
{
    let raw = blake3_digest(data);
    proof {
        lemma_hex_of_len(raw@);
    }
    hex_encode(raw.as_slice())
}

/// Hex digest of `data` under `hash_type`. The result is a function of the
/// bytes and the algorithm alone, and its length is fixed by the algorithm.
pub fn hex_string(data: &[u8], hash_type: HashType) -> (r: String)
    ensures
        r@ == hash_type.hex_digest(data@),
        r@.len() == hash_type.hex_len(),
{
    match hash_type {
        HashType::MD5 => md5_hash(data),
        HashType::Blake3 => blake3_hash(data),
        HashType::SHA1 => sha1_hash(data),
    }
}

/// Hashing is deterministic: equal contents give equal digests, wherever
/// the contents are read from.
pub proof fn lemma_digest_deterministic(hash_type: HashType, first: Seq<u8>, second: Seq<u8>)
    requires
        first == second,
    ensures
        hash_type.hex_digest(first) == hash_type.hex_digest(second),
{
}

} // verus!
