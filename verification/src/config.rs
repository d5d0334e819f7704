//! Parsing of a `WIDTHxHEIGHT` resolution string.

use vstd::prelude::*;
use vstd::string::StrSliceExecFns;

verus! {

pub open spec fn is_ascii_digit(c: char) -> bool {
    '0' <= c && c <= '9'
}

pub open spec fn digit_value(c: char) -> int {
    c as int - '0' as int
}

/// The value of a digit string, most significant digit first.
pub open spec fn digits_value(s: Seq<char>) -> int
    decreases s.len(),
{
    if s.len() == 0 {
        0
    } else {
        digits_value(s.drop_last()) * 10 + digit_value(s.last())
    }
}

pub open spec fn all_digits(s: Seq<char>) -> bool {
    forall|i: int| 0 <= i < s.len() ==> is_ascii_digit(#[trigger] s[i])
}

/// A decimal number: one or more digits whose value fits the type.
pub open spec fn parse_u32_spec(s: Seq<char>) -> Option<u32> {
    if s.len() > 0 && all_digits(s) && digits_value(s) <= u32::MAX {
        Some(digits_value(s) as u32)
    } else {
        None
    }
}

/// The first position at or after `i` holding `x`.
pub open spec fn find_x_from(s: Seq<char>, i: int) -> Option<int>
    decreases s.len() - i,
{
    if i < 0 || i >= s.len() {
        None
    } else if s[i] == 'x' {
        Some(i)
    } else {
        find_x_from(s, i + 1)
    }
}

/// A resolution string parses exactly when an `x` splits it into two
/// decimal numbers that fit in the type; the first `x` splits.
pub open spec fn parse_resolution_spec(s: Seq<char>) -> Option<(u32, u32)> {
    match find_x_from(s, 0) {
        Some(i) => match (parse_u32_spec(s.subrange(0, i)), parse_u32_spec(
            s.subrange(i + 1, s.len() as int),
        )) {
            (Some(w), Some(h)) => Some((w, h)),
            _ => None,
        },
        None => None,
    }
}

/// A digit string's value only grows as digits are appended.
proof fn lemma_digits_value_grows(s: Seq<char>, i: int)
    requires
        0 <= i <= s.len(),
        all_digits(s),
    ensures
        digits_value(s.take(i)) <= digits_value(s),
        digits_value(s) >= 0,
    decreases s.len(),
{
    if s.len() == 0 {
    } else {
        lemma_digits_value_grows(s.drop_last(), if i < s.len() {
            i
        } else {
            s.len() - 1
        });
        assert(s.drop_last() =~= s.take(s.len() - 1));
        if i < s.len() {
            assert(s.drop_last().take(i) =~= s.take(i));
        } else {
            assert(s.take(i) =~= s);
        }
        assert(digit_value(s.last()) >= 0);
    }
}

fn parse_u32_digits(s: &str) -> (r: Option<u32>)
    ensures
        r == parse_u32_spec(s@),
{
    let n = s.unicode_len();
    if n == 0 {
        return None;
    }
    let mut acc: u64 = 0;
    let mut i: usize = 0;
    proof {
        assert(s@.take(0) =~= Seq::<char>::empty());
    }
    while i < n
        invariant
            0 <= i <= n,
            n == s@.len(),
            all_digits(s@.take(i as int)),
            acc == digits_value(s@.take(i as int)),
            acc <= u32::MAX,
        decreases n - i,
    {
        let c = s.get_char(i);
        proof {
            assert(s@.take(i as int + 1).drop_last() =~= s@.take(i as int));
            assert(s@.take(i as int + 1).last() == s@[i as int]);
        }
        if !(c >= '0' && c <= '9') {
            return None;
        }
        let d = (c as u32) - ('0' as u32);
        acc = acc * 10 + (d as u64);
        if acc > u32::MAX as u64 {
            proof {
                if all_digits(s@) {
                    lemma_digits_value_grows(s@, i as int + 1);
                    assert(digits_value(s@) > u32::MAX);
                }
            }
            return None;
        }
        i = i + 1;
    }
    proof {
        assert(s@.take(n as int) =~= s@);
    }
    Some(acc as u32)
}

/// Finds the first `x` in `s`.
fn find_x(s: &str) -> (r: Option<usize>)
    ensures
        match r {
            Some(i) => find_x_from(s@, 0) == Some(i as int) && 0 <= i < s@.len(),
            None => find_x_from(s@, 0) is None,
        },
{
    let n = s.unicode_len();
    let mut i: usize = 0;
    while i < n
        invariant
            0 <= i <= n,
            n == s@.len(),
            find_x_from(s@, i as int) == find_x_from(s@, 0),
        decreases n - i,
    {
        if s.get_char(i) == 'x' {
            return Some(i);
        }
        i = i + 1;
    }
    None
}

/// Parses `WIDTHxHEIGHT`; the contract says exactly which strings parse.
pub fn parse_resolution(s: &str) -> (r: Option<(u32, u32)>)
    ensures
        r == parse_resolution_spec(s@),
{
    let n = s.unicode_len();
    match find_x(s) {
        Some(i) => {
            let w = parse_u32_digits(s.substring_char(0, i));
            let h = parse_u32_digits(s.substring_char(i + 1, n));
            match (w, h) {
                (Some(w), Some(h)) => Some((w, h)),
                _ => None,
            }
        },
        None => None,
    }
}

} // verus!
