//! The integrity token of an upload and how it moves from chunk to chunk.
//!
//! A token is text. After a chunk is taken, the next token is the SHA-256
//! digest, in lower-case hexadecimal, of the bytes of the current token
//! followed by the bytes of the chunk.

use crate::hex::bytes_to_hex;
use crate::hex::hex_of;
use sha2::Digest;
use vstd::prelude::*;
use vstd::utf8::encode_utf8;

verus! {

/// The SHA-256 digest of a byte string.
pub uninterp spec fn sha256(input: Seq<u8>) -> Seq<u8>;

/// `sha2::Sha256::digest`: the digest of `input`, which for SHA-256 fills
/// thirty-two bytes.
#[verifier::external_body]
fn sha256_digest(input: &[u8]) -> (digest: Vec<u8>)
    ensures
        digest@ == sha256(input@),
        digest@.len() == 32,
{
    sha2::Sha256::digest(input).to_vec()
}

/// The token that follows `token` once a chunk holding `data` is taken.
pub open spec fn rotated_token(token: Seq<char>, data: Seq<u8>) -> Seq<char> {
    hex_of(sha256(encode_utf8(token) + data))
}

/// The bytes of `head` followed by the bytes of `tail`.
pub fn concat_bytes(head: &[u8], tail: &[u8]) -> (joined: Vec<u8>)
    ensures
        joined@ == head@ + tail@,
{
    let mut joined: Vec<u8> = Vec::new();
    let mut i: usize = 0;
    while i < head.len()
        invariant
            i <= head.len(),
            joined@ == head@.subrange(0, i as int),
        decreases head.len() - i,
    {
        joined.push(head[i]);
        i += 1;
    }
    let mut j: usize = 0;
    while j < tail.len()
        invariant
            j <= tail.len(),
            joined@ == head@ + tail@.subrange(0, j as int),
        decreases tail.len() - j,
    {
        joined.push(tail[j]);
        j += 1;
    }
    joined
}

/// The hexadecimal SHA-256 digest of `cryptify_token` followed by `data`.
pub fn compute_hash(cryptify_token: &[u8], data: &[u8]) -> (shasum: String)
    ensures
        shasum@ == hex_of(sha256(cryptify_token@ + data@)),
        shasum@.len() == 64,
{
    let joined = concat_bytes(cryptify_token, data);
    let digest = sha256_digest(joined.as_slice());
    bytes_to_hex(digest.as_slice())
}

/// The token that follows `token` once a chunk holding `data` is taken.
pub fn rotate_token(token: &str, data: &[u8]) -> (next: String)
    ensures
        next@ == rotated_token(token@, data@),
        next@.len() == 64,
{
    compute_hash(token.as_bytes(), data)
}

/// Whether two texts hold the same characters.
pub fn same_text(a: &str, b: &str) -> (same: bool)
    ensures
        same == (a@ == b@),
{
    let x = a.as_bytes();
    let y = b.as_bytes();
    proof {
        vstd::utf8::encode_utf8_decode_utf8(a@);
        vstd::utf8::encode_utf8_decode_utf8(b@);
    }
    if x.len() != y.len() {
        return false;
    }
    let mut i: usize = 0;
    while i < x.len()
        invariant
            i <= x.len(),
            x@.len() == y@.len(),
            x@.subrange(0, i as int) == y@.subrange(0, i as int),
            x@ == encode_utf8(a@),
            y@ == encode_utf8(b@),
            vstd::utf8::decode_utf8(encode_utf8(a@)) == a@,
            vstd::utf8::decode_utf8(encode_utf8(b@)) == b@,
        decreases x.len() - i,
    {
        if x[i] != y[i] {
            return false;
        }
        i += 1;
    }
    assert(x@.subrange(0, i as int) =~= x@);
    assert(y@.subrange(0, i as int) =~= y@);
    true
}

} // verus!
