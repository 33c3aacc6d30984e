//! Decimal integer parsing with the grammar of std's `FromStr` for `u32` and `i32`:
//! an optional sign (`+`, and `-` for signed types) followed by at least one ASCII digit,
//! nothing else, and a value within the type's range.

use vstd::prelude::*;

use crate::text::{all_digits, chars_of, decimal_value, digit_of, is_digit_char};

verus! {

/// The digits after an optional leading `+`.
pub open spec fn after_plus(s: Seq<char>) -> Seq<char> {
    if s.len() > 0 && s[0] == '+' {
        s.drop_first()
    } else {
        s
    }
}

/// At least one digit, only digits, and a value at most `limit`.
pub open spec fn digits_within(d: Seq<char>, limit: int) -> bool {
    d.len() > 0 && all_digits(d) && decimal_value(d) <= limit
}

/// What `s.parse::<u32>()` yields.
pub open spec fn parse_u32_spec(s: Seq<char>) -> Option<u32> {
    let d = after_plus(s);
    if digits_within(d, u32::MAX as int) {
        Some(decimal_value(d) as u32)
    } else {
        None
    }
}

/// What `s.parse::<i32>()` yields.
pub open spec fn parse_i32_spec(s: Seq<char>) -> Option<i32> {
    if s.len() > 0 && s[0] == '-' {
        let d = s.drop_first();
        if digits_within(d, 2147483648) {
            Some((-decimal_value(d)) as i32)
        } else {
            None
        }
    } else {
        let d = after_plus(s);
        if digits_within(d, i32::MAX as int) {
            Some(decimal_value(d) as i32)
        } else {
            None
        }
    }
}

/// Reads `chars[start..]` as a decimal number no larger than `limit`.
fn read_digits(chars: &Vec<char>, start: usize, limit: u64) -> (r: Option<u64>)
    requires
        start <= chars@.len(),
        limit <= 4294967296,
    ensures
        ({
            let d = chars@.subrange(start as int, chars@.len() as int);
            match r {
                Some(v) => digits_within(d, limit as int) && v == decimal_value(d),
                None => !digits_within(d, limit as int),
            }
        }),
{
    let n = chars.len();
    if start == n {
        return None;
    }
    let mut k: usize = start;
    let mut acc: u64 = 0;
    let mut over = false;
    while k < n
        invariant
            n == chars@.len(),
            start <= k <= n,
            limit <= 4294967296,
            all_digits(chars@.subrange(start as int, k as int)),
            !over ==> acc == decimal_value(chars@.subrange(start as int, k as int)) && acc <= limit,
            over ==> decimal_value(chars@.subrange(start as int, k as int)) > limit,
        decreases n - k,
    {
        let c = chars[k];
        let ghost prev = chars@.subrange(start as int, k as int);
        let ghost next = chars@.subrange(start as int, k + 1);
        assert(next.drop_last() =~= prev);
        if !is_digit_char(c) {
            assert(!all_digits(chars@.subrange(start as int, n as int))) by {
                assert(chars@.subrange(start as int, n as int)[k - start] == c);
            }
            return None;
        }
        let d = digit_of(c);
        assert(decimal_value(next) == decimal_value(prev) * 10 + d);
        if !over {
            let v = acc * 10 + d as u64;
            if v > limit {
                over = true;
            } else {
                acc = v;
            }
        }
        k = k + 1;
    }
    assert(chars@.subrange(start as int, k as int) == chars@.subrange(start as int, n as int));
    if over {
        None
    } else {
        Some(acc)
    }
}

/// `s.parse::<u32>()`: the decimal value of `s`, or `None` where std's parser refuses it.
pub fn parse_u32(s: &str) -> (r: Option<u32>)
    ensures
        r == parse_u32_spec(s@),
{
    let chars = chars_of(s);
    let start: usize = if chars.len() > 0 && chars[0] == '+' { 1 } else { 0 };
    proof {
        assert(chars@.subrange(start as int, chars@.len() as int) =~= after_plus(s@));
    }
    match read_digits(&chars, start, 4294967295) {
        Some(v) => Some(v as u32),
        None => None,
    }
}

/// `s.parse::<i32>()`: the decimal value of `s`, or `None` where std's parser refuses it.
pub fn parse_i32(s: &str) -> (r: Option<i32>)
    ensures
        r == parse_i32_spec(s@),
{
    let chars = chars_of(s);
    if chars.len() > 0 && chars[0] == '-' {
        proof {
            assert(chars@.subrange(1, chars@.len() as int) =~= s@.drop_first());
        }
        match read_digits(&chars, 1, 2147483648) {
            Some(v) => {
                let m: i64 = -(v as i64);
                Some(m as i32)
            },
            None => None,
        }
    } else {
        let start: usize = if chars.len() > 0 && chars[0] == '+' { 1 } else { 0 };
        proof {
            assert(chars@.subrange(start as int, chars@.len() as int) =~= after_plus(s@));
        }
        match read_digits(&chars, start, 2147483647) {
            Some(v) => Some(v as i32),
            None => None,
        }
    }
}

/// Plain digits parse as their decimal value: a non-empty string of ASCII digits is read by
/// `parse::<u32>` (and `parse::<i32>`) as the number it spells, whenever that number fits.
pub proof fn lemma_plain_digits_parse_as_their_value(s: Seq<char>)
    requires
        s.len() > 0,
        all_digits(s),
    ensures
        decimal_value(s) <= u32::MAX ==> parse_u32_spec(s) == Some(decimal_value(s) as u32),
        decimal_value(s) <= i32::MAX ==> parse_i32_spec(s) == Some(decimal_value(s) as i32),
{
    assert(crate::text::is_digit(s[0]));
    assert(after_plus(s) == s);
}

} // verus!
