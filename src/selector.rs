//! The algorithm selector: the four supported algorithms and the parsing of
//! the operator's menu choice.
use vstd::prelude::*;

verus! {

/// A supported checksum algorithm.
#[derive(Clone, Copy, Debug, PartialEq, Eq, Structural)]
pub enum Algorithm {
    Md5,
    Sha1,
    Sha256,
    Fletcher,
}

/// The algorithm that a menu number stands for: 1 MD5, 2 SHA-1, 3 SHA-256,
/// 4 Fletcher; any other number stands for none.
pub open spec fn algorithm_of(n: int) -> Option<Algorithm> {
    if n == 1 {
        Some(Algorithm::Md5)
    } else if n == 2 {
        Some(Algorithm::Sha1)
    } else if n == 3 {
        Some(Algorithm::Sha256)
    } else if n == 4 {
        Some(Algorithm::Fletcher)
    } else {
        None
    }
}

/// The text of a number without its optional leading `+` sign.
pub open spec fn unsigned_digits(t: Seq<char>) -> Seq<char> {
    if t.len() > 0 && t[0] == '+' {
        t.drop_first()
    } else {
        t
    }
}

pub open spec fn is_ascii_digit(c: char) -> bool {
    '0' <= c && c <= '9'
}

/// A non-empty run of ASCII decimal digits.
pub open spec fn is_decimal(d: Seq<char>) -> bool {
    d.len() > 0 && forall|i: int| 0 <= i < d.len() ==> is_ascii_digit(#[trigger] d[i])
}

/// The value of a run of decimal digits, most significant first.
pub open spec fn decimal_value(d: Seq<char>) -> nat
    decreases d.len(),
{
    if d.len() == 0 {
        0
    } else {
        (decimal_value(d.drop_last()) * 10 + ((d.last() as u32) - 48)) as nat
    }
}

/// The algorithm chosen by a (trimmed) selector text: the text must be an
/// unsigned decimal number, with an optional `+` sign, whose value names one
/// of the four algorithms. Anything else chooses none.
pub open spec fn selector_of(t: Seq<char>) -> Option<Algorithm> {
    let d = unsigned_digits(t);
    if is_decimal(d) {
        algorithm_of(decimal_value(d) as int)
    } else {
        None
    }
}

/// The text with leading and trailing whitespace removed.
pub uninterp spec fn trimmed(s: Seq<char>) -> Seq<char>;

/// Relies on `str::trim`: removes leading and trailing whitespace; the result
/// depends on the characters alone.
#[verifier::external_body]
pub(crate) fn trim_text<'a>(s: &'a str) -> (r: &'a str)
    ensures
        r@ == trimmed(s@),
{
    s.trim()
}

impl Algorithm {
    /// The algorithm with menu number `n`, if any.
    pub fn from_number(n: u32) -> (r: Option<Algorithm>)
        ensures
            r == algorithm_of(n as int),
    {
        match n {
            1 => Some(Algorithm::Md5),
            2 => Some(Algorithm::Sha1),
            3 => Some(Algorithm::Sha256),
            4 => Some(Algorithm::Fletcher),
            _ => None,
        }
    }
}

/// The algorithm chosen by an already trimmed selector text.
pub fn selector_from_text(t: &str) -> (r: Option<Algorithm>)
    ensures
        r == selector_of(t@),
{
    let n = t.unicode_len();
    let mut start: usize = 0;
    if n > 0 && t.get_char(0) == '+' {
        start = 1;
    }
    let ghost digits = unsigned_digits(t@);
    proof {
        assert(digits =~= t@.subrange(start as int, n as int));
    }
    if start == n {
        return None;
    }
    // The value of the digits read so far, capped at 5: every value from 5 up
    // chooses no algorithm, and the cap keeps the number small.
    let mut value: u32 = 0;
    let mut i: usize = start;
    while i < n
        invariant
            start <= i <= n,
            n == t@.len(),
            digits == unsigned_digits(t@),
            digits == t@.subrange(start as int, n as int),
            forall|k: int| 0 <= k < i - start ==> is_ascii_digit(#[trigger] digits[k]),
            value as nat == if decimal_value(digits.subrange(0, i - start)) < 5 {
                decimal_value(digits.subrange(0, i - start))
            } else {
                5
            },
        decreases n - i,
    {
        let c = t.get_char(i);
        if !('0' <= c && c <= '9') {
            proof {
                assert(digits[i - start] == c);
                assert(!is_ascii_digit(digits[i - start]));
                assert(!is_decimal(digits));
            }
            return None;
        }
        proof {
            let prev = digits.subrange(0, i - start);
            let next = digits.subrange(0, i + 1 - start);
            assert(next.drop_last() =~= prev);
            assert(next.last() == c);
        }
        let d = (c as u32) - 48;
        if value < 5 {
            value = value * 10 + d;
            if value > 5 {
                value = 5;
            }
        }
        i = i + 1;
    }
    proof {
        assert(digits.subrange(0, n - start) =~= digits);
    }
    Algorithm::from_number(value)
}

/// The algorithm chosen by a selector line as the operator typed it:
/// surrounding whitespace is ignored.
pub fn parse_selector(line: &str) -> (r: Option<Algorithm>)
    ensures
        r == selector_of(trimmed(line@)),
{
    selector_from_text(trim_text(line))
}

} // verus!
