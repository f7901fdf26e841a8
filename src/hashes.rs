//! MD5, SHA-1 and SHA-256 digests, rendered as lowercase hexadecimal.
use vstd::prelude::*;

use md5::Md5;
use sha1::Sha1;
use sha2::{Digest, Sha256};

use crate::hex::{hex_encode, hex_of, lemma_hex_of_shape};

verus! {

/// The 16-byte MD5 digest of a byte sequence.
pub uninterp spec fn md5_of(data: Seq<u8>) -> Seq<u8>;

/// The 20-byte SHA-1 digest of a byte sequence.
pub uninterp spec fn sha1_of(data: Seq<u8>) -> Seq<u8>;

/// The 32-byte SHA-256 digest of a byte sequence.
pub uninterp spec fn sha256_of(data: Seq<u8>) -> Seq<u8>;

/// Relies on `md5::Md5` through `digest::Digest::digest`: the digest depends on
/// the input bytes alone and is 16 bytes long (`OutputSize = U16`).
#[verifier::external_body]
fn md5_digest(data: &[u8]) -> (r: Vec<u8>)
    ensures
        r@ == md5_of(data@),
        r@.len() == 16,
{
    Md5::digest(data).to_vec()
}

/// Relies on `sha1::Sha1` through `digest::Digest::digest`: the digest depends on
/// the input bytes alone and is 20 bytes long (`OutputSize = U20`).
#[verifier::external_body]
fn sha1_digest(data: &[u8]) -> (r: Vec<u8>)
    ensures
        r@ == sha1_of(data@),
        r@.len() == 20,
{
    Sha1::digest(data).to_vec()
}

/// Relies on `sha2::Sha256` through `digest::Digest::digest`: the digest depends
/// on the input bytes alone and is 32 bytes long (`OutputSize = U32`).
#[verifier::external_body]
fn sha256_digest(data: &[u8]) -> (r: Vec<u8>)
    ensures
        r@ == sha256_of(data@),
        r@.len() == 32,
{
    Sha256::digest(data).to_vec()
}

/// The MD5 digest of `data` in lowercase hexadecimal (32 digits).
pub fn calculate_md5(data: &[u8]) -> (r: String)
    ensures
        r@ == hex_of(md5_of(data@)),
        r@.len() == 32,
{
    let digest = md5_digest(data);
    proof {
        lemma_hex_of_shape(digest@);
    }
    hex_encode(digest.as_slice())
}

/// The SHA-1 digest of `data` in lowercase hexadecimal (40 digits).
pub fn calculate_sha1(data: &[u8]) -> (r: String)
    ensures
        r@ == hex_of(sha1_of(data@)),
        r@.len() == 40,
{
    let digest = sha1_digest(data);
    proof {
        lemma_hex_of_shape(digest@);
    }
    hex_encode(digest.as_slice())
}

/// The SHA-256 digest of `data` in lowercase hexadecimal (64 digits).
pub fn calculate_sha256(data: &[u8]) -> (r: String)
    ensures
        r@ == hex_of(sha256_of(data@)),
        r@.len() == 64,
{
    let digest = sha256_digest(data);
    proof {
        lemma_hex_of_shape(digest@);
    }
    hex_encode(digest.as_slice())
}

} // verus!
