//! Comparison of checksum strings, ignoring ASCII case.
use vstd::prelude::*;

verus! {

pub open spec fn is_ascii_upper(c: char) -> bool {
    'A' <= c && c <= 'Z'
}

/// The code point of `c` with an ASCII uppercase letter taken to its lowercase
/// form; every other character keeps its own code point.
pub open spec fn ascii_lower_code(c: char) -> int {
    if is_ascii_upper(c) {
        c as u32 + 32
    } else {
        c as u32 as int
    }
}

/// Two texts are equal once ASCII letters are folded to lowercase.
pub open spec fn same_ignoring_ascii_case(a: Seq<char>, b: Seq<char>) -> bool {
    a.len() == b.len() && forall|i: int|
        0 <= i < a.len() ==> ascii_lower_code(#[trigger] a[i]) == ascii_lower_code(b[i])
}

/// `e` is `c` itself or the ASCII uppercase form of `c`.
pub open spec fn is_case_variant(e: char, c: char) -> bool {
    e == c || (is_ascii_upper(e) && e as u32 + 32 == c as u32)
}

/// A hexadecimal digit in either case.
pub open spec fn is_hex_char_any_case(c: char) -> bool {
    ('0' <= c && c <= '9') || ('a' <= c && c <= 'f') || ('A' <= c && c <= 'F')
}

/// An expected value that spells the computed value in any mix of cases
/// matches it.
pub proof fn lemma_mixed_case_matches(expected: Seq<char>, computed: Seq<char>)
    requires
        expected.len() == computed.len(),
        forall|i: int| 0 <= i < expected.len() ==> is_case_variant(#[trigger] expected[i], computed[i]),
    ensures
        same_ignoring_ascii_case(expected, computed),
{
    assert forall|i: int| 0 <= i < expected.len() implies ascii_lower_code(#[trigger] expected[i])
        == ascii_lower_code(computed[i]) by {
        assert(is_case_variant(expected[i], computed[i]));
    }
}

/// A hexadecimal digit of the expected value that differs, in any case, from
/// the lowercase digit computed at the same place makes the two mismatch.
pub proof fn lemma_differing_digit_mismatches(expected: Seq<char>, computed: Seq<char>, i: int)
    requires
        0 <= i < expected.len(),
        i < computed.len(),
        is_hex_char_any_case(expected[i]),
        ('0' <= computed[i] && computed[i] <= '9') || ('a' <= computed[i] && computed[i] <= 'f'),
        !is_case_variant(expected[i], computed[i]),
    ensures
        !same_ignoring_ascii_case(expected, computed),
{
    assert(ascii_lower_code(expected[i]) != ascii_lower_code(computed[i]));
}

/// Whether `expected` and `computed` are the same text up to the case of
/// ASCII letters.
pub fn checksums_match(expected: &str, computed: &str) -> (r: bool)
    ensures
        r == same_ignoring_ascii_case(expected@, computed@),
{
    let n = expected.unicode_len();
    if n != computed.unicode_len() {
        return false;
    }
    let mut i: usize = 0;
    while i < n
        invariant
            i <= n,
            n == expected@.len(),
            n == computed@.len(),
            forall|k: int|
                0 <= k < i ==> ascii_lower_code(#[trigger] expected@[k]) == ascii_lower_code(
                    computed@[k],
                ),
        decreases n - i,
    {
        let a = expected.get_char(i);
        let b = computed.get_char(i);
        let la: u32 = if 'A' <= a && a <= 'Z' {
            a as u32 + 32
        } else {
            a as u32
        };
        let lb: u32 = if 'A' <= b && b <= 'Z' {
            b as u32 + 32
        } else {
            b as u32
        };
        if la != lb {
            proof {
                assert(ascii_lower_code(expected@[i as int]) != ascii_lower_code(computed@[i as int]));
            }
            return false;
        }
        i = i + 1;
    }
    true
}

} // verus!
