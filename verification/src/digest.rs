//! SHA-1 fingerprints rendered as lowercase hexadecimal.

use vstd::prelude::*;
use sha1::Digest;
use vstd::string::*;
use crate::text::{hex_lower, to_hex_lower, is_hex_lower_digit, lemma_hex_lower_shape};

verus! {

/// The SHA-1 digest of a byte string, as the `sha1` crate computes it.
pub uninterp spec fn sha1_digest(data: Seq<u8>) -> Seq<u8>;

/// Calls `sha1::Sha1` (`new`, `update`, `finalize`) on `data`.
/// Claimed: the result is the named digest of the input and is 20 bytes long
/// (the hasher's output size is `U20`).
#[verifier::external_body]
fn sha1_of(data: &[u8]) -> (r: Vec<u8>)
    ensures
        r@ == sha1_digest(data@),
        r@.len() == 20,
{
    let mut hasher = sha1::Sha1::new();
    hasher.update(data);
    hasher.finalize().to_vec()
}

/// Lowercase hexadecimal SHA-1 of the UTF-8 bytes of `s`: 40 characters.
pub fn sha1_hex(s: &str) -> (r: String)
    ensures
        r@ == hex_lower(sha1_digest(s.spec_bytes())),
        r@.len() == 40,
        forall|i: int| 0 <= i < 40 ==> is_hex_lower_digit(#[trigger] r@[i]),
{
    let digest = sha1_of(s.as_bytes());
    proof {
        lemma_hex_lower_shape(digest@);
    }
    to_hex_lower(digest.as_slice())
}

} // verus!
