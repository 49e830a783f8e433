//! Validation of the numbers a caller asks for: how long a password is to
//! be, and how many passwords are wanted.
//!
//! A number is written as decimal digits, with an optional `+` in front:
//! the form in which the standard library reads a `usize` from a string.

use crate::charset::is_digit;
use vstd::prelude::*;
use vstd::string::*;

verus! {

/// The shortest password length that is accepted.
pub const LENGTH_MIN: usize = 3;

/// The smallest number of passwords that is accepted.
pub const NUMBER_MIN: usize = 1;

/// What an error message starts with where the text is no number.  The text
/// itself follows.
pub const INVALID_NUMBER: &'static str = "Invalid number: ";

/// The error message for a length below [`LENGTH_MIN`].
pub const LENGTH_TOO_SMALL: &'static str = "Password length must be at least 3 characters";

/// The error message for a number of passwords below [`NUMBER_MIN`].
pub const NUMBER_TOO_SMALL: &'static str = "Password number must be at least 1";

/// What the digit `c` stands for.
pub open spec fn digit_value(c: char) -> nat {
    if is_digit(c) {
        (c as int - '0' as int) as nat
    } else {
        0
    }
}

/// The number that a sequence of decimal digits stands for.
pub open spec fn decimal_value(digits: Seq<char>) -> nat
    decreases digits.len(),
{
    if digits.len() == 0 {
        0
    } else {
        10 * decimal_value(digits.drop_last()) + digit_value(digits.last())
    }
}

/// `digits` is one or more decimal digits and nothing else.
pub open spec fn is_decimal(digits: Seq<char>) -> bool {
    &&& digits.len() > 0
    &&& forall|i: int| 0 <= i < digits.len() ==> is_digit(#[trigger] digits[i])
}

/// `s` without the `+` that may stand in front.
pub open spec fn unsigned_part(s: Seq<char>) -> Seq<char> {
    if s.len() > 0 && s[0] == '+' {
        s.skip(1)
    } else {
        s
    }
}

/// The number that `s` stands for, where it is a decimal number that fits
/// into a `usize`.
pub open spec fn parsed(s: Seq<char>) -> Option<usize> {
    let digits = unsigned_part(s);
    if is_decimal(digits) && decimal_value(digits) <= usize::MAX {
        Some(decimal_value(digits) as usize)
    } else {
        None
    }
}

/// The outcome of validating `s` against the lower bound `min`: the number,
/// or the message that says what is wrong.
pub open spec fn validated(s: Seq<char>, min: usize, too_small: Seq<char>) -> Result<
    usize,
    Seq<char>,
> {
    match parsed(s) {
        None => Err(INVALID_NUMBER@ + s),
        Some(value) => if value < min {
            Err(too_small)
        } else {
            Ok(value)
        },
    }
}

/// A result with its message taken as a sequence of characters.
pub open spec fn outcome(r: Result<usize, String>) -> Result<usize, Seq<char>> {
    match r {
        Ok(value) => Ok(value),
        Err(message) => Err(message@),
    }
}

/// One more digit multiplies the value by ten and adds the digit.
proof fn lemma_decimal_value_step(digits: Seq<char>, k: int)
    requires
        0 <= k < digits.len(),
    ensures
        decimal_value(digits.take(k + 1)) == 10 * decimal_value(digits.take(k)) + digit_value(
            digits[k],
        ),
{
    assert(digits.take(k + 1).drop_last() =~= digits.take(k));
}

/// The value of a prefix is at most the value of the whole.
proof fn lemma_decimal_value_grows(digits: Seq<char>, k: int)
    requires
        0 <= k <= digits.len(),
    ensures
        decimal_value(digits.take(k)) <= decimal_value(digits),
    decreases digits.len() - k,
{
    if k == digits.len() {
        assert(digits.take(k) =~= digits);
    } else {
        lemma_decimal_value_step(digits, k);
        lemma_decimal_value_grows(digits, k + 1);
    }
}

/// A text with a character outside ASCII is no number.
proof fn lemma_not_ascii_not_number(s: Seq<char>)
    requires
        !vstd::utf8::is_ascii_chars(s),
    ensures
        parsed(s) is None,
{
    let i = choose|i: int| 0 <= i < s.len() && !('\0' <= #[trigger] s[i] <= '\u{7f}');
    let digits = unsigned_part(s);
    if s[0] == '+' {
        assert(digits[i - 1] == s[i]);
    }
}

/// Reads a decimal number: an optional `+`, then one or more digits.
/// Anything else, and a number too large for a `usize`, gives `None`.
pub fn parse_number(s: &str) -> (value: Option<usize>)
    ensures
        value == parsed(s@),
{
    if !s.is_ascii() {
        proof {
            lemma_not_ascii_not_number(s@);
        }
        return None;
    }
    let n: usize = s.unicode_len();
    let start: usize = if n > 0 && s.get_ascii(0) as char == '+' {
        1
    } else {
        0
    };
    let ghost digits = unsigned_part(s@);
    if start == n {
        return None;
    }
    let mut value: usize = 0;
    let mut i: usize = start;
    while i < n
        invariant
            start <= i <= n,
            n == s@.len(),
            is_ascii(s),
            digits == s@.skip(start as int),
            digits == unsigned_part(s@),
            digits.len() == n - start,
            forall|j: int| 0 <= j < i - start ==> is_digit(#[trigger] digits[j]),
            value == decimal_value(digits.take(i - start)),
        decreases n - i,
    {
        let c: char = s.get_ascii(i) as char;
        assert(digits[i - start] == s@[i as int]);
        if c < '0' || c > '9' {
            return None;
        }
        let d: usize = c as usize - '0' as usize;
        proof {
            lemma_decimal_value_step(digits, i - start);
            lemma_decimal_value_grows(digits, i - start + 1);
        }
        let next = match value.checked_mul(10) {
            Some(tens) => tens.checked_add(d),
            None => None,
        };
        match next {
            Some(v) => {
                value = v;
            },
            None => {
                return None;
            },
        }
        i += 1;
    }
    assert(digits.take(i - start) =~= digits);
    Some(value)
}

/// Validates `s` as a number that is at least `min`.
fn validate_at_least(s: &str, min: usize, too_small: &str) -> (r: Result<usize, String>)
    ensures
        outcome(r) == validated(s@, min, too_small@),
{
    match parse_number(s) {
        None => Err(String::from_str(INVALID_NUMBER).concat(s)),
        Some(value) => if value < min {
            Err(String::from_str(too_small))
        } else {
            Ok(value)
        },
    }
}

/// Validates a password length: a decimal number that is at least
/// [`LENGTH_MIN`].
pub fn validate_length(s: &str) -> (r: Result<usize, String>)
    ensures
        outcome(r) == validated(s@, LENGTH_MIN, LENGTH_TOO_SMALL@),
{
    validate_at_least(s, LENGTH_MIN, LENGTH_TOO_SMALL)
}

/// Validates a number of passwords: a decimal number that is at least
/// [`NUMBER_MIN`].
pub fn validate_number(s: &str) -> (r: Result<usize, String>)
    ensures
        outcome(r) == validated(s@, NUMBER_MIN, NUMBER_TOO_SMALL@),
{
    validate_at_least(s, NUMBER_MIN, NUMBER_TOO_SMALL)
}

} // verus!
