//! Numbers read from settings.
use crate::text::to_chars;
use vstd::prelude::*;
use vstd::string::*;

verus! {

/// Whether a character is a decimal digit.
pub open spec fn is_digit(c: char) -> bool {
    '0' <= c <= '9'
}

/// The number that a text of decimal digits stands for.
pub open spec fn digits_value(s: Seq<char>) -> nat
    decreases s.len(),
{
    if s.len() == 0 {
        0
    } else {
        (digits_value(s.drop_last()) * 10 + (s.last() as int - 48)) as nat
    }
}

/// A text without one leading plus sign.
pub open spec fn without_plus(s: Seq<char>) -> Seq<char> {
    if s.len() > 0 && s[0] == '+' {
        s.drop_first()
    } else {
        s
    }
}

/// The number that a text stands for, if it is made of decimal digits, at least
/// one of them, after at most one plus sign, and is no larger than `max`.
pub open spec fn parsed(s: Seq<char>, max: nat) -> Option<nat> {
    let digits = without_plus(s);
    if digits.len() > 0 && (forall|i: int| 0 <= i < digits.len() ==> is_digit(#[trigger] digits[i]))
        && digits_value(digits) <= max {
        Some(digits_value(digits))
    } else {
        None
    }
}

proof fn lemma_value_grows(s: Seq<char>, len: int)
    requires
        0 <= len <= s.len(),
        forall|i: int| 0 <= i < s.len() ==> is_digit(#[trigger] s[i]),
    ensures
        digits_value(s.take(len)) <= digits_value(s),
    decreases s.len() - len,
{
    if len < s.len() {
        let longer = s.take(len + 1);
        assert(longer.drop_last() == s.take(len));
        assert(is_digit(s[len]));
        lemma_value_grows(s, len + 1);
    } else {
        assert(s.take(len) == s);
    }
}

/// Reads a number that fits in `usize`.
pub fn parse_usize(text: &str) -> (number: Option<usize>)
    ensures
        match number {
            Some(number) => parsed(text@, usize::MAX as nat) == Some(number as nat),
            None => parsed(text@, usize::MAX as nat) is None,
        },
{
    let chars = to_chars(text);
    let start: usize = if chars.len() > 0 && chars[0] == '+' {
        1
    } else {
        0
    };
    let ghost digits = without_plus(text@);
    proof {
        assert(digits =~= chars@.subrange(start as int, chars@.len() as int));
    }
    if start == chars.len() {
        return None;
    }
    let mut value: usize = 0;
    let mut i: usize = start;
    while i < chars.len()
        invariant
            start <= i <= chars@.len(),
            start < chars@.len(),
            digits == without_plus(text@),
            digits =~= chars@.subrange(start as int, chars@.len() as int),
            forall|k: int| 0 <= k < i - start ==> is_digit(#[trigger] digits[k]),
            value == digits_value(digits.take(i - start)),
        decreases chars@.len() - i,
    {
        let c = chars[i];
        let ghost at = i - start;
        proof {
            assert(digits[at] == c);
        }
        if !('0' <= c && c <= '9') {
            return None;
        }
        let d: usize = (c as u32 - 48) as usize;
        proof {
            assert(digits.take(at + 1).drop_last() == digits.take(at));
            assert(digits_value(digits.take(at + 1)) == value * 10 + d);
        }
        if value > (usize::MAX - d) / 10 {
            proof {
                if forall|k: int| 0 <= k < digits.len() ==> is_digit(#[trigger] digits[k]) {
                    lemma_value_grows(digits, at + 1);
                }
            }
            return None;
        }
        value = value * 10 + d;
        i = i + 1;
    }
    proof {
        assert(digits.take(i - start) == digits);
    }
    Some(value)
}

/// A setting that must be a positive number, or else the given default.
pub open spec fn positive_setting(value: Option<Seq<char>>, default: int) -> int {
    match value {
        Some(text) => match parsed(text, usize::MAX as nat) {
            Some(number) => if number > 0 {
                number as int
            } else {
                default
            },
            None => default,
        },
        None => default,
    }
}

/// The positive number that a setting holds, if it holds one.
pub fn parse_positive(value: Option<&str>) -> (number: Option<usize>)
    ensures
        match number {
            Some(number) => number > 0 && value is Some && parsed(
                value->Some_0@,
                usize::MAX as nat,
            ) == Some(number as nat),
            None => value is None || parsed(value->Some_0@, usize::MAX as nat) is None || parsed(
                value->Some_0@,
                usize::MAX as nat,
            ) == Some(0nat),
        },
{
    match value {
        Some(text) => match parse_usize(text) {
            Some(number) => if number > 0 {
                Some(number)
            } else {
                None
            },
            None => None,
        },
        None => None,
    }
}

} // verus!
