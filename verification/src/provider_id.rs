//! The grammar of a node's provider identifier: the scheme `hcloud://`
//! followed by a signed decimal integer that fits in 32 bits.

use vstd::prelude::*;
use vstd::std_specs::iter::IteratorSpec;

verus! {

/// The characters every provider identifier starts with.
pub open spec fn scheme() -> Seq<char> {
    seq!['h', 'c', 'l', 'o', 'u', 'd', ':', '/', '/']
}

/// Whether a character is one of the ten decimal digits.
pub open spec fn is_digit(c: char) -> bool {
    '0' <= c && c <= '9'
}

/// The number from 0 to 9 that a decimal digit stands for.
pub open spec fn digit_value(c: char) -> int {
    c as int - '0' as int
}

/// Whether a sequence of characters holds decimal digits only.
pub open spec fn all_digits(s: Seq<char>) -> bool {
    forall|i: int| 0 <= i < s.len() ==> is_digit(#[trigger] s[i])
}

/// The number that a sequence of decimal digits denotes, most significant digit first.
pub open spec fn decimal_value(s: Seq<char>) -> int
    decreases s.len(),
{
    if s.len() == 0 {
        0
    } else {
        10 * decimal_value(s.drop_last()) + digit_value(s.last())
    }
}

/// What an optional sign followed by at least one decimal digit denotes;
/// `None` for any other sequence of characters.
pub open spec fn signed_decimal(s: Seq<char>) -> Option<int> {
    if s.len() > 0 && (s[0] == '-' || s[0] == '+') {
        let digits = s.skip(1);
        if digits.len() > 0 && all_digits(digits) {
            Some(
                if s[0] == '-' {
                    -decimal_value(digits)
                } else {
                    decimal_value(digits)
                },
            )
        } else {
            None
        }
    } else if s.len() > 0 && all_digits(s) {
        Some(decimal_value(s))
    } else {
        None
    }
}

/// The server identifier that a provider identifier names: the identifier is
/// the scheme followed by a signed decimal number within the range of `i32`.
pub open spec fn provider_server_id(s: Seq<char>) -> Option<i32> {
    if scheme().is_prefix_of(s) {
        match signed_decimal(s.skip(scheme().len() as int)) {
            Some(v) => if i32::MIN <= v <= i32::MAX {
                Some(v as i32)
            } else {
                None
            },
            None => None,
        }
    } else {
        None
    }
}

/// Appending digits never makes the denoted number smaller.
proof fn lemma_decimal_value_monotonic(s: Seq<char>, k: int)
    requires
        all_digits(s),
        0 <= k <= s.len(),
    ensures
        0 <= decimal_value(s.take(k)) <= decimal_value(s),
    decreases s.len() - k,
{
    lemma_decimal_value_nonnegative(s.take(k));
    if k < s.len() {
        lemma_decimal_value_monotonic(s, k + 1);
        assert(s.take(k + 1).drop_last() == s.take(k));
    } else {
        assert(s.take(k) == s);
    }
}

proof fn lemma_decimal_value_nonnegative(s: Seq<char>)
    requires
        all_digits(s),
    ensures
        0 <= decimal_value(s),
    decreases s.len(),
{
    if s.len() > 0 {
        lemma_decimal_value_nonnegative(s.drop_last());
    }
}

/// Copies the characters of a string into a vector.
fn chars_of(s: &str) -> (out: Vec<char>)
    ensures
        out@ == s@,
{
    let mut out: Vec<char> = Vec::new();
    let chars = s.chars();
    for c in it: chars
        invariant
            it.seq() == s@,
            out@ == s@.take(it.index()),
    {
        out.push(c);
    }
    out
}

/// Reads the decimal digits `chars[start..]` as a magnitude of at most 2^31.
fn parse_magnitude(chars: &Vec<char>, start: usize) -> (magnitude: Option<i64>)
    requires
        start <= chars.len(),
    ensures
        match magnitude {
            Some(m) => all_digits(chars@.skip(start as int)) && m == decimal_value(
                chars@.skip(start as int),
            ) && 0 <= m <= 0x8000_0000,
            None => !all_digits(chars@.skip(start as int)) || decimal_value(
                chars@.skip(start as int),
            ) > 0x8000_0000,
        },
{
    let ghost digits = chars@.skip(start as int);
    let mut value: i64 = 0;
    let mut i: usize = start;
    while i < chars.len()
        invariant
            start <= i <= chars.len(),
            digits == chars@.skip(start as int),
            all_digits(digits.take(i - start)),
            value == decimal_value(digits.take(i - start)),
            0 <= value <= 0x8000_0000,
        decreases chars.len() - i,
    {
        let c = chars[i];
        if !(c >= '0' && c <= '9') {
            assert(!is_digit(digits[i - start]));
            return None;
        }
        let digit: u32 = c as u32 - '0' as u32;
        proof {
            assert(digits.take(i - start + 1).drop_last() == digits.take(i - start));
        }
        value = value * 10 + digit as i64;
        if value > 0x8000_0000 {
            proof {
                if all_digits(digits) {
                    lemma_decimal_value_monotonic(digits, i - start + 1);
                }
            }
            return None;
        }
        i += 1;
    }
    assert(digits.take(i - start) == digits);
    Some(value)
}

/// Reads a provider identifier. The answer is the server identifier, or
/// `None` where the text is not the scheme followed by a 32-bit integer.
pub fn parse_provider_id(provider_id: &str) -> (id: Option<i32>)
    ensures
        id == provider_server_id(provider_id@),
{
    let chars = chars_of(provider_id);
    let n: usize = chars.len();
    if n < 9 || chars[0] != 'h' || chars[1] != 'c' || chars[2] != 'l' || chars[3] != 'o'
        || chars[4] != 'u' || chars[5] != 'd' || chars[6] != ':' || chars[7] != '/' || chars[8]
        != '/' {
        return None;
    }
    assert(scheme().is_prefix_of(chars@));
    let ghost rest = chars@.skip(9);
    if n == 9 {
        return None;
    }
    let negative = chars[9] == '-';
    let signed = negative || chars[9] == '+';
    let start: usize = if signed { 10 } else { 9 };
    assert(chars@.skip(start as int) == if signed { rest.skip(1) } else { rest });
    if start == n {
        return None;
    }
    match parse_magnitude(&chars, start) {
        None => None,
        Some(magnitude) => {
            let value: i64 = if negative { -magnitude } else { magnitude };
            if value > 0x7fff_ffff {
                None
            } else {
                Some(value as i32)
            }
        },
    }
}

} // verus!
