//! Fletcher-32 over a byte sequence: two running sums taken modulo 65535.
use vstd::prelude::*;

use crate::hex::{hex_encode, hex_of, is_lower_hex_char, lemma_hex_of_shape};

verus! {

/// The modulus of both running sums.
pub const FLETCHER_MODULUS: u32 = 65535;

/// The pair `(sum1, sum2)` after every byte of `data` has been taken in order:
/// each byte `b` sets `sum1 = (sum1 + b) mod 65535`, then
/// `sum2 = (sum2 + sum1) mod 65535`, starting from `(0, 0)`.
pub open spec fn fletcher_sums(data: Seq<u8>) -> (int, int)
    decreases data.len(),
{
    if data.len() == 0 {
        (0, 0)
    } else {
        let prev = fletcher_sums(data.drop_last());
        let sum1 = (prev.0 + data.last()) % 65535;
        (sum1, (prev.1 + sum1) % 65535)
    }
}

/// The checksum as a 32-bit value: `sum2` in the high half, `sum1` in the low half.
pub open spec fn fletcher_value(data: Seq<u8>) -> int {
    fletcher_sums(data).1 * 0x10000 + fletcher_sums(data).0
}

/// The four bytes of a 32-bit value, most significant first.
pub open spec fn be32_bytes(v: int) -> Seq<u8> {
    seq![
        (v / 0x1000000 % 256) as u8,
        (v / 0x10000 % 256) as u8,
        (v / 0x100 % 256) as u8,
        (v % 256) as u8,
    ]
}

/// The checksum rendered as eight lowercase hexadecimal digits, zero-padded.
pub open spec fn fletcher_hex(data: Seq<u8>) -> Seq<char> {
    hex_of(be32_bytes(fletcher_value(data)))
}

/// Both running sums always stay below the modulus.
pub proof fn lemma_fletcher_sums_bounded(data: Seq<u8>)
    ensures
        0 <= fletcher_sums(data).0 < 65535,
        0 <= fletcher_sums(data).1 < 65535,
    decreases data.len(),
{
    if data.len() > 0 {
        lemma_fletcher_sums_bounded(data.drop_last());
    }
}

/// The checksum is a function of the bytes alone: equal inputs give the same
/// text, which is always eight lowercase hexadecimal digits.
pub proof fn lemma_fletcher_deterministic(a: Seq<u8>, b: Seq<u8>)
    requires
        a == b,
    ensures
        fletcher_hex(a) == fletcher_hex(b),
        fletcher_hex(a).len() == 8,
        forall|i: int| 0 <= i < 8 ==> is_lower_hex_char(#[trigger] fletcher_hex(a)[i]),
{
    lemma_hex_of_shape(be32_bytes(fletcher_value(a)));
}

/// The first sum is taken modulo 65535, not 65536: a byte that brings it to
/// exactly 65535 wraps it to 0, and the second sum then stays where it was.
pub proof fn lemma_sum1_wraps_at_modulus(data: Seq<u8>, b: u8)
    requires
        fletcher_sums(data).0 + b == 65535,
    ensures
        fletcher_sums(data.push(b)).0 == 0,
        fletcher_sums(data.push(b)).1 == fletcher_sums(data).1,
{
    lemma_fletcher_sums_bounded(data);
    assert(data.push(b).drop_last() =~= data);
}

proof fn lemma_pack_halves(hi: u32, lo: u32)
    requires
        hi < 0x10000,
        lo < 0x10000,
    ensures
        (hi << 16u32) | lo == hi * 0x10000 + lo,
{
    assert((hi << 16u32) | lo == hi * 0x10000 + lo) by (bit_vector)
        requires
            hi < 0x10000,
            lo < 0x10000,
    ;
}

/// Computes the Fletcher-32 checksum of `data` as a 32-bit value.
pub fn fletcher_checksum(data: &[u8]) -> (r: u32)
    ensures
        r == fletcher_value(data@),
{
    let mut sum1: u32 = 0;
    let mut sum2: u32 = 0;
    let mut i: usize = 0;
    while i < data.len()
        invariant
            i <= data@.len(),
            sum1 < FLETCHER_MODULUS,
            sum2 < FLETCHER_MODULUS,
            (sum1 as int, sum2 as int) == fletcher_sums(data@.subrange(0, i as int)),
        decreases data@.len() - i,
    {
        sum1 = (sum1 + data[i] as u32) % FLETCHER_MODULUS;
        sum2 = (sum2 + sum1) % FLETCHER_MODULUS;
        proof {
            let next = data@.subrange(0, i + 1);
            assert(next.drop_last() =~= data@.subrange(0, i as int));
        }
        i = i + 1;
    }
    proof {
        assert(data@.subrange(0, data@.len() as int) =~= data@);
        lemma_pack_halves(sum2, sum1);
    }
    (sum2 << 16u32) | sum1
}

/// The four bytes of `v`, most significant first.
fn u32_to_be_bytes(v: u32) -> (r: Vec<u8>)
    ensures
        r@ == be32_bytes(v as int),
{
    let mut r: Vec<u8> = Vec::new();
    r.push((v / 0x1000000) as u8);
    r.push((v / 0x10000 % 256) as u8);
    r.push((v / 0x100 % 256) as u8);
    r.push((v % 256) as u8);
    proof {
        assert(r@ =~= be32_bytes(v as int));
    }
    r
}

/// The Fletcher-32 checksum of `data` as eight lowercase hexadecimal digits.
pub fn calculate_fletcher(data: &[u8]) -> (r: String)
    ensures
        r@ == fletcher_hex(data@),
        r@.len() == 8,
{
    proof {
        lemma_fletcher_deterministic(data@, data@);
    }
    let v = fletcher_checksum(data);
    let bytes = u32_to_be_bytes(v);
    hex_encode(bytes.as_slice())
}

} // verus!
