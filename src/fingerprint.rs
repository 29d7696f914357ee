//! Content fingerprints of diagnostic texts: the deduplication key.

use sha2::Digest;
use vstd::prelude::*;

verus! {

/// The SHA-256 digest of a byte sequence.
pub uninterp spec fn sha256_of(data: Seq<u8>) -> Seq<u8>;

/// Number of bytes in a fingerprint.
pub const FINGERPRINT_LEN: usize = 32;

/// Relies on `sha2::Sha256` (`new`, `update`, `finalize`): the digest depends
/// on the input bytes alone and is always 32 bytes long.
#[verifier::external_body]
fn hash(data: &[u8]) -> (r: Vec<u8>)
    ensures
        r@ == sha256_of(data@),
        r@.len() == FINGERPRINT_LEN,
{
    let mut hasher = sha2::Sha256::new();
    hasher.update(data);
    Vec::from(&*hasher.finalize())
}

/// The fingerprint of a diagnostic text: the digest of its UTF-8 bytes.
pub open spec fn fingerprint_of(text: Seq<char>) -> Seq<u8> {
    sha256_of(vstd::utf8::encode_utf8(text))
}

/// Computes the deduplication key of a full diagnostic text.
pub fn fingerprint(text: &str) -> (r: Vec<u8>)
    ensures
        r@ == fingerprint_of(text@),
        r@.len() == FINGERPRINT_LEN,
{
    hash(text.as_bytes())
}

/// The same diagnostic text always yields the same fingerprint.
pub proof fn lemma_fingerprint_deterministic(a: Seq<char>, b: Seq<char>)
    requires
        a == b,
    ensures
        fingerprint_of(a) == fingerprint_of(b),
{
}

} // verus!
