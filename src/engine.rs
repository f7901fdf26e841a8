//! The checksum engine: one entry point over the four algorithms, and the
//! comparison of its result against an expected value.
use vstd::prelude::*;

use crate::compare::{checksums_match, same_ignoring_ascii_case};
use crate::fletcher::{calculate_fletcher, fletcher_hex};
use crate::hashes::{calculate_md5, calculate_sha1, calculate_sha256, md5_of, sha1_of, sha256_of};
use crate::hex::hex_of;
use crate::selector::{trim_text, trimmed, Algorithm};

verus! {

/// The lowercase hexadecimal checksum of `data` under `alg`.
pub open spec fn checksum_of(alg: Algorithm, data: Seq<u8>) -> Seq<char> {
    match alg {
        Algorithm::Md5 => hex_of(md5_of(data)),
        Algorithm::Sha1 => hex_of(sha1_of(data)),
        Algorithm::Sha256 => hex_of(sha256_of(data)),
        Algorithm::Fletcher => fletcher_hex(data),
    }
}

/// The number of hexadecimal digits in a checksum under `alg`.
pub open spec fn checksum_len(alg: Algorithm) -> nat {
    match alg {
        Algorithm::Md5 => 32,
        Algorithm::Sha1 => 40,
        Algorithm::Sha256 => 64,
        Algorithm::Fletcher => 8,
    }
}

/// Computes the checksum of `data` under `alg`, in lowercase hexadecimal.
pub fn compute(alg: Algorithm, data: &[u8]) -> (r: String)
    ensures
        r@ == checksum_of(alg, data@),
        r@.len() == checksum_len(alg),
{
    match alg {
        Algorithm::Md5 => calculate_md5(data),
        Algorithm::Sha1 => calculate_sha1(data),
        Algorithm::Sha256 => calculate_sha256(data),
        Algorithm::Fletcher => calculate_fletcher(data),
    }
}

/// The outcome of one comparison: the expected value as it is compared, the
/// checksum that was computed, and whether the two match.
pub struct Report {
    pub expected: String,
    pub computed: String,
    pub matched: bool,
}

/// Computes the checksum of `data` under `alg` and compares it, ignoring
/// ASCII case, with `expected_line` without its surrounding whitespace.
pub fn compare_checksum(expected_line: &str, alg: Algorithm, data: &[u8]) -> (r: Report)
    ensures
        r.expected@ == trimmed(expected_line@),
        r.computed@ == checksum_of(alg, data@),
        r.matched == same_ignoring_ascii_case(trimmed(expected_line@), checksum_of(alg, data@)),
{
    let expected = trim_text(expected_line);
    let computed = compute(alg, data);
    let matched = checksums_match(expected, computed.as_str());
    Report { expected: expected.to_owned(), computed, matched }
}

} // verus!
