//! Reading whole numbers from text.
//!
//! A number is an optional sign, the minus only where negative numbers are
//! allowed, and at least one decimal digit.

use vstd::prelude::*;

use crate::text::{chars_of, decimal, digit_char, signed_decimal};

verus! {

/// Why a text is not a number of the wanted range.
#[derive(Clone, Copy, Debug, PartialEq, Eq, Structural)]
pub enum NumberError {
    Empty,
    InvalidDigit,
    TooLarge,
    TooSmall,
}

impl NumberError {
    /// The wording of [`NumberError::message`].
    pub open spec fn message_text(self) -> Seq<char> {
        match self {
            NumberError::Empty => "cannot parse integer from empty string"@,
            NumberError::InvalidDigit => "invalid digit found in string"@,
            NumberError::TooLarge => "number too large to fit in target type"@,
            NumberError::TooSmall => "number too small to fit in target type"@,
        }
    }

    /// The message shown to the user.
    pub fn message(self) -> (result: &'static str)
        ensures
            result@ == self.message_text(),
    {
        match self {
            NumberError::Empty => "cannot parse integer from empty string",
            NumberError::InvalidDigit => "invalid digit found in string",
            NumberError::TooLarge => "number too large to fit in target type",
            NumberError::TooSmall => "number too small to fit in target type",
        }
    }
}

/// The value of a decimal digit.
pub open spec fn decimal_digit(c: char) -> Option<int> {
    if '0' <= c <= '9' {
        Some(c as u32 - '0' as u32)
    } else {
        None
    }
}

/// Reads the digits from `from` on, behind digits of the value `sofar`. The first
/// character that is no digit, or that leads out of the range, decides the error.
pub open spec fn digits_value(
    text: Seq<char>,
    from: int,
    sofar: int,
    negative: bool,
    min: int,
    max: int,
) -> Result<int, NumberError>
    decreases text.len() - from,
{
    if from >= text.len() {
        Ok(sofar)
    } else {
        match decimal_digit(text[from]) {
            None => Err(NumberError::InvalidDigit),
            Some(digit) => {
                let next = if negative {
                    10 * sofar - digit
                } else {
                    10 * sofar + digit
                };
                if next > max {
                    Err(NumberError::TooLarge)
                } else if next < min {
                    Err(NumberError::TooSmall)
                } else {
                    digits_value(text, from + 1, next, negative, min, max)
                }
            },
        }
    }
}

/// The number that a text denotes, within `min..=max`. A minus sign is a sign
/// only where `min` is negative.
pub open spec fn number_value(text: Seq<char>, min: int, max: int) -> Result<int, NumberError> {
    if text.len() == 0 {
        Err(NumberError::Empty)
    } else if text.len() == 1 && (text[0] == '+' || text[0] == '-') {
        Err(NumberError::InvalidDigit)
    } else if text[0] == '+' {
        digits_value(text, 1, 0, false, min, max)
    } else if text[0] == '-' && min < 0 {
        digits_value(text, 1, 0, true, min, max)
    } else {
        digits_value(text, 0, 0, false, min, max)
    }
}

proof fn lemma_digits_push(
    text: Seq<char>,
    c: char,
    from: int,
    sofar: int,
    negative: bool,
    min: int,
    max: int,
)
    requires
        0 <= from <= text.len(),
        digits_value(text, from, sofar, negative, min, max) is Ok,
    ensures
        digits_value(text.push(c), from, sofar, negative, min, max) == digits_value(
            text.push(c),
            text.len() as int,
            digits_value(text, from, sofar, negative, min, max)->Ok_0,
            negative,
            min,
            max,
        ),
    decreases text.len() - from,
{
    if from < text.len() {
        assert(text.push(c)[from] == text[from]);
        let digit = decimal_digit(text[from])->0;
        let next = if negative {
            10 * sofar - digit
        } else {
            10 * sofar + digit
        };
        lemma_digits_push(text, c, from + 1, next, negative, min, max);
    }
}

proof fn lemma_decimal_is_read(prefix: Seq<char>, value: nat, negative: bool, min: int, max: int)
    requires
        min <= 0 <= max,
        negative ==> min <= -value,
        !negative ==> value <= max,
    ensures
        digits_value(prefix + decimal(value), prefix.len() as int, 0, negative, min, max) == Ok::<
            int,
            NumberError,
        >(
            if negative {
                -value
            } else {
                value as int
            },
        ),
    decreases value,
{
    let text = prefix + decimal(value);
    let at = text.len() - 1;
    let sofar = if negative {
        -((value / 10) as int)
    } else {
        (value / 10) as int
    };
    if value < 10 {
        assert(text[at] == digit_char(value));
        assert(sofar == 0);
    } else {
        let shorter = prefix + decimal(value / 10);
        lemma_decimal_is_read(prefix, value / 10, negative, min, max);
        assert(text =~= shorter.push(digit_char(value % 10)));
        lemma_digits_push(
            shorter,
            digit_char(value % 10),
            prefix.len() as int,
            0,
            negative,
            min,
            max,
        );
        assert(text[at] == digit_char(value % 10));
    }
    assert(decimal_digit(text[at]) == Some((value % 10) as int));
    let next = if negative {
        10 * sofar - (value % 10)
    } else {
        10 * sofar + (value % 10)
    };
    assert(digits_value(text, at, sofar, negative, min, max) == digits_value(
        text,
        at + 1,
        next,
        negative,
        min,
        max,
    ));
}

pub(crate) proof fn lemma_decimal_starts_with_a_digit(value: nat)
    ensures
        decimal(value).len() >= 1,
        '0' <= decimal(value)[0] <= '9',
    decreases value,
{
    if value >= 10 {
        lemma_decimal_starts_with_a_digit(value / 10);
        assert(decimal(value)[0] == decimal(value / 10)[0]);
    }
}

/// A number that is written out is read back, with its sign, wherever it lies in
/// the range.
pub proof fn law_written_numbers_are_read(value: int, min: int, max: int)
    requires
        min <= 0 <= max,
        min <= value <= max,
    ensures
        number_value(signed_decimal(value), min, max) == Ok::<int, NumberError>(value),
{
    let text = signed_decimal(value);
    if value < 0 {
        lemma_decimal_starts_with_a_digit((-value) as nat);
        lemma_decimal_is_read(seq!['-'], (-value) as nat, true, min, max);
        assert(text[0] == '-');
    } else {
        lemma_decimal_starts_with_a_digit(value as nat);
        lemma_decimal_is_read(Seq::empty(), value as nat, false, min, max);
        assert(Seq::empty() + decimal(value as nat) =~= text);
    }
}

/// What is read lies in the range.
pub proof fn law_read_numbers_are_in_range(text: Seq<char>, min: int, max: int)
    requires
        min <= 0 <= max,
        number_value(text, min, max) is Ok,
    ensures
        min <= number_value(text, min, max)->Ok_0 <= max,
{
    let negative = text[0] == '-' && min < 0;
    let from = if text[0] == '+' || negative {
        1int
    } else {
        0int
    };
    lemma_digits_in_range(text, from, 0, negative, min, max);
}

proof fn lemma_digits_in_range(
    text: Seq<char>,
    from: int,
    sofar: int,
    negative: bool,
    min: int,
    max: int,
)
    requires
        min <= sofar <= max,
        digits_value(text, from, sofar, negative, min, max) is Ok,
    ensures
        min <= digits_value(text, from, sofar, negative, min, max)->Ok_0 <= max,
    decreases text.len() - from,
{
    if from < text.len() {
        let digit = decimal_digit(text[from])->0;
        let next = if negative {
            10 * sofar - digit
        } else {
            10 * sofar + digit
        };
        lemma_digits_in_range(text, from + 1, next, negative, min, max);
    }
}

/// Reads a number within `min..=max`.
pub fn parse_number(text: &str, min: i128, max: i128) -> (result: Result<i128, NumberError>)
    requires
        -0x1_0000_0000_0000_0000 <= min <= 0 <= max <= 0x1_0000_0000_0000_0000,
    ensures
        match number_value(text@, min as int, max as int) {
            Ok(value) => result == Ok::<i128, NumberError>(value as i128) && min <= value <= max,
            Err(error) => result == Err::<i128, NumberError>(error),
        },
{
    let chars: Vec<char> = chars_of(text);
    if chars.len() == 0 {
        return Err(NumberError::Empty);
    }
    let first: char = chars[0];
    if chars.len() == 1 && (first == '+' || first == '-') {
        return Err(NumberError::InvalidDigit);
    }
    let negative: bool = first == '-' && min < 0;
    let mut i: usize = if first == '+' || negative {
        1
    } else {
        0
    };
    let mut value: i128 = 0;
    while i < chars.len()
        invariant
            chars@ == text@,
            i <= chars@.len(),
            -0x1_0000_0000_0000_0000 <= min <= value <= max <= 0x1_0000_0000_0000_0000,
            number_value(text@, min as int, max as int) == digits_value(
                text@,
                i as int,
                value as int,
                negative,
                min as int,
                max as int,
            ),
        decreases chars@.len() - i,
    {
        let c: char = chars[i];
        if !('0' <= c && c <= '9') {
            return Err(NumberError::InvalidDigit);
        }
        let digit: i128 = (c as u32 - '0' as u32) as i128;
        let next: i128 = if negative {
            10 * value - digit
        } else {
            10 * value + digit
        };
        if next > max {
            return Err(NumberError::TooLarge);
        }
        if next < min {
            return Err(NumberError::TooSmall);
        }
        value = next;
        i = i + 1;
    }
    Ok(value)
}

/// Reads a `u64`.
pub fn parse_u64(text: &str) -> (result: Result<u64, NumberError>)
    ensures
        match number_value(text@, 0, u64::MAX as int) {
            Ok(value) => result == Ok::<u64, NumberError>(value as u64) && 0 <= value <= u64::MAX,
            Err(error) => result == Err::<u64, NumberError>(error),
        },
{
    match parse_number(text, 0, 0xffff_ffff_ffff_ffff) {
        Ok(value) => Ok(value as u64),
        Err(error) => Err(error),
    }
}

/// Reads an `i32`.
pub fn parse_i32(text: &str) -> (result: Result<i32, NumberError>)
    ensures
        match number_value(text@, i32::MIN as int, i32::MAX as int) {
            Ok(value) => result == Ok::<i32, NumberError>(value as i32) && i32::MIN <= value
                <= i32::MAX,
            Err(error) => result == Err::<i32, NumberError>(error),
        },
{
    match parse_number(text, -0x8000_0000, 0x7fff_ffff) {
        Ok(value) => Ok(value as i32),
        Err(error) => Err(error),
    }
}

/// Reads an `i64`.
pub fn parse_i64(text: &str) -> (result: Result<i64, NumberError>)
    ensures
        match number_value(text@, i64::MIN as int, i64::MAX as int) {
            Ok(value) => result == Ok::<i64, NumberError>(value as i64) && i64::MIN <= value
                <= i64::MAX,
            Err(error) => result == Err::<i64, NumberError>(error),
        },
{
    match parse_number(text, -0x8000_0000_0000_0000, 0x7fff_ffff_ffff_ffff) {
        Ok(value) => Ok(value as i64),
        Err(error) => Err(error),
    }
}

} // verus!
