//! Numbers that the service writes as strings.

use crate::error::GrowattError;
use crate::text::{chars_of, decimal_digits, digit_char};
use vstd::prelude::*;

verus! {

/// True for the ten ASCII digits.
pub open spec fn is_digit(c: char) -> bool {
    '0' <= c <= '9'
}

/// The value of a digit.
pub open spec fn digit_value(c: char) -> nat {
    (c as int - '0' as int) as nat
}

/// True when `digits` holds digits only.
pub open spec fn all_digits(digits: Seq<char>) -> bool {
    forall|i: int| 0 <= i < digits.len() ==> is_digit(#[trigger] digits[i])
}

/// The number that `digits` writes in base ten.
pub open spec fn decimal_value(digits: Seq<char>) -> nat
    decreases digits.len(),
{
    if digits.len() == 0 {
        0
    } else {
        decimal_value(digits.drop_last()) * 10 + digit_value(digits.last())
    }
}

/// The digits of an unsigned number: the text without one leading `+`.
pub open spec fn unsigned_digits(text: Seq<char>) -> Seq<char> {
    if text.len() > 0 && text[0] == '+' {
        text.subrange(1, text.len() as int)
    } else {
        text
    }
}

/// The unsigned 32-bit integer that `text` writes: an optional `+`, then at
/// least one digit and nothing else, with a value that fits. `None` for any
/// other text.
pub open spec fn parsed_u32(text: Seq<char>) -> Option<u32> {
    let digits = unsigned_digits(text);
    if digits.len() > 0 && all_digits(digits) && decimal_value(digits) <= u32::MAX {
        Some(decimal_value(digits) as u32)
    } else {
        None
    }
}

/// Writing more digits after a number never makes it smaller.
pub proof fn lemma_decimal_value_grows(digits: Seq<char>, n: int)
    requires
        0 <= n <= digits.len(),
    ensures
        decimal_value(digits.take(n)) <= decimal_value(digits),
    decreases digits.len() - n,
{
    if n < digits.len() {
        lemma_decimal_value_grows(digits, n + 1);
        assert(digits.take(n + 1).drop_last() =~= digits.take(n));
    } else {
        assert(digits.take(n) =~= digits);
    }
}

/// The digits that write a number read back as that number.
pub proof fn lemma_decimal_digits_read_back(n: nat)
    ensures
        decimal_digits(n).len() > 0,
        all_digits(decimal_digits(n)),
        decimal_value(decimal_digits(n)) == n,
    decreases n,
{
    let last = digit_char((n % 10) as int);
    assert(is_digit(last) && digit_value(last) == n % 10);
    let digits = decimal_digits(n);
    assert(digits.last() == last);
    if n < 10 {
        assert(digits.drop_last() =~= Seq::<char>::empty());
        assert(decimal_value(digits.drop_last()) == 0);
    } else {
        lemma_decimal_digits_read_back(n / 10);
        assert(digits.drop_last() =~= decimal_digits(n / 10));
        assert(decimal_value(digits) == (n / 10) * 10 + n % 10);
    }
}

/// Reads a number that the service wrote as a string. Any text that is not
/// an unsigned 32-bit integer in base ten is a malformed response: there is
/// no default.
pub fn from_str(s: &str) -> (number: Result<u32, GrowattError>)
    ensures
        match parsed_u32(s@) {
            Some(n) => number == Ok::<u32, GrowattError>(n),
            None => number == Err::<u32, GrowattError>(GrowattError::MalformedResponse),
        },
{
    let chars = chars_of(s);
    let start: usize = if chars.len() > 0 && chars[0] == '+' {
        1
    } else {
        0
    };
    let ghost digits = unsigned_digits(s@);
    proof {
        assert(digits =~= chars@.subrange(start as int, chars@.len() as int));
    }
    if start == chars.len() {
        return Err(GrowattError::MalformedResponse);
    }
    let mut value: u64 = 0;
    let mut i: usize = start;
    while i < chars.len()
        invariant
            start <= i <= chars.len(),
            digits == unsigned_digits(s@),
            digits == chars@.subrange(start as int, chars@.len() as int),
            all_digits(digits.take(i - start)),
            value == decimal_value(digits.take(i - start)),
            value <= u32::MAX,
        decreases chars.len() - i,
    {
        let c = chars[i];
        proof {
            assert(digits[i - start] == c);
            assert(digits.take(i - start + 1).drop_last() =~= digits.take(i - start));
            assert(digits.take(i - start + 1).last() == c);
        }
        if !('0' <= c && c <= '9') {
            proof {
                assert(!is_digit(digits[i - start]));
            }
            return Err(GrowattError::MalformedResponse);
        }
        let digit: u64 = (c as u32 - '0' as u32) as u64;
        let next: u64 = value * 10 + digit;
        if next > 0xffff_ffff {
            proof {
                lemma_decimal_value_grows(digits, i - start + 1);
            }
            return Err(GrowattError::MalformedResponse);
        }
        value = next;
        i += 1;
    }
    proof {
        assert(digits.take(i - start) =~= digits);
    }
    Ok(value as u32)
}

} // verus!
