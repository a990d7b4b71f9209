//! SHA-256 digests of text, rendered as lowercase hexadecimal.

use sha2::Digest;
use vstd::prelude::*;
use vstd::utf8::encode_utf8;
use crate::text::{hex_lower, hex_lower_exec};

verus! {

/// The SHA-256 digest of `data` (FIPS 180-4), as computed by the `sha2` crate.
pub uninterp spec fn sha256(data: Seq<u8>) -> Seq<u8>;

/// `sha2::Sha256::digest`. The contract claims that the 32 bytes it returns
/// are `sha256` of the input bytes: a function of those bytes alone, 32
/// bytes long (`OutputSize = U32` in the crate). Nothing else about the
/// digest is claimed.
#[verifier::external_body]
fn sha256_bytes(data: &[u8]) -> (out: Vec<u8>)
    ensures
        out@ == sha256(data@),
        out@.len() == 32,
{
    sha2::Sha256::digest(data).to_vec()
}

/// The SHA-256 digest of the UTF-8 encoding of `text`.
pub fn sha256_of_text(text: &String) -> (out: Vec<u8>)
    ensures
        out@ == sha256(encode_utf8(text@)),
        out@.len() == 32,
{
    let bytes = text.as_str().as_bytes();
    sha256_bytes(bytes)
}

/// The SHA-256 digest of the UTF-8 encoding of `text`, in lowercase hex.
pub fn sha256_hex(text: &String) -> (out: Vec<char>)
    ensures
        out@ == hex_lower(sha256(encode_utf8(text@))),
        out@.len() == 64,
{
    let d = sha256_of_text(text);
    let h = hex_lower_exec(&d);
    proof {
        lemma_hex_len(d@);
    }
    h
}

/// Two hex digits per byte.
pub proof fn lemma_hex_len(b: Seq<u8>)
    ensures
        hex_lower(b).len() == 2 * b.len(),
    decreases b.len(),
{
    if b.len() > 0 {
        lemma_hex_len(b.drop_last());
    }
}

} // verus!
