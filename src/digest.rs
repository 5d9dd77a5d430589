//! Content digests, as lowercase hexadecimal strings.
//!
//! The two algorithms are computed by their outside crates. What a digest is
//! on given bytes is not restated here: it is named, and the library relies
//! only on the digest being a function of the bytes.

use vstd::prelude::*;

verus! {

/// The BLAKE3 digest of the bytes, as 64 lowercase hex digits.
pub uninterp spec fn blake3_hex_of(data: Seq<u8>) -> Seq<char>;

/// The SHA-256 digest of the bytes, as 64 lowercase hex digits.
pub uninterp spec fn sha256_hex_of(data: Seq<u8>) -> Seq<char>;

/// Relies on `blake3::hash` and `Hash::to_hex`: the digest of `data`
/// rendered as 64 hex characters.
#[verifier::external_body]
fn blake3_hex(data: &[u8]) -> (r: String)
    ensures
        r@ == blake3_hex_of(data@),
        r@.len() == 64,
{
    blake3::hash(data).to_hex().as_str().to_owned()
}

/// Relies on `sha2::Sha256::digest` and the `LowerHex` rendering of its
/// output: the digest of `data` rendered as 64 hex characters.
#[verifier::external_body]
fn sha256_hex(data: &[u8]) -> (r: String)
    ensures
        r@ == sha256_hex_of(data@),
        r@.len() == 64,
{
    format!("{:x}", <sha2::Sha256 as sha2::Digest>::digest(data))
}

/// The digest algorithms a scan or a comparison can use.
#[derive(Debug, Clone, Copy, PartialEq, Eq)]
pub enum HashAlgorithm {
    /// SHA-256.
    Sha256,
    /// BLAKE3.
    Blake3,
}

/// The digest of `data` under `alg`.
pub open spec fn digest_of(alg: HashAlgorithm, data: Seq<u8>) -> Seq<char> {
    match alg {
        HashAlgorithm::Sha256 => sha256_hex_of(data),
        HashAlgorithm::Blake3 => blake3_hex_of(data),
    }
}

/// Computes the digest of a file's contents.
pub fn content_digest(alg: HashAlgorithm, data: &[u8]) -> (r: String)
    ensures
        r@ == digest_of(alg, data@),
        r@.len() == 64,
{
    match alg {
        HashAlgorithm::Sha256 => sha256_hex(data),
        HashAlgorithm::Blake3 => blake3_hex(data),
    }
}

/// Equality of two strings, character by character.
pub fn same_text(a: &str, b: &str) -> (r: bool)
    ensures
        r == (a@ == b@),
{
    let x = crate::text::chars_of(a);
    let y = crate::text::chars_of(b);
    if x.len() != y.len() {
        return false;
    }
    let mut i: usize = 0;
    while i < x.len()
        invariant
            x@ == a@,
            y@ == b@,
            x@.len() == y@.len(),
            i <= x@.len(),
            forall|k: int| 0 <= k < i ==> x@[k] == y@[k],
        decreases x@.len() - i,
    {
        if x[i] != y[i] {
            return false;
        }
        i = i + 1;
    }
    assert(x@ =~= y@);
    true
}

/// Whether two contents have the same digest under `alg`.
pub fn digests_match(alg: HashAlgorithm, a: &[u8], b: &[u8]) -> (r: bool)
    ensures
        r == (digest_of(alg, a@) == digest_of(alg, b@)),
{
    let da = content_digest(alg, a);
    let db = content_digest(alg, b);
    same_text(da.as_str(), db.as_str())
}

/// Equal contents have equal digests, so a digest comparison of two copies
/// of the same bytes always finds them equal.
pub proof fn lemma_equal_contents_equal_digests(alg: HashAlgorithm, a: Seq<u8>, b: Seq<u8>)
    requires
        a == b,
    ensures
        digest_of(alg, a) == digest_of(alg, b),
{
}

} // verus!
