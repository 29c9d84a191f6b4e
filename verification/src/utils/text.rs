//! Decimal rendering of integers and small helpers on strings.
use vstd::prelude::*;

verus! {

/// The character of a decimal digit.
pub open spec fn digit_char(digit: nat) -> char
    recommends
        digit < 10,
{
    if digit == 0 {
        '0'
    } else if digit == 1 {
        '1'
    } else if digit == 2 {
        '2'
    } else if digit == 3 {
        '3'
    } else if digit == 4 {
        '4'
    } else if digit == 5 {
        '5'
    } else if digit == 6 {
        '6'
    } else if digit == 7 {
        '7'
    } else if digit == 8 {
        '8'
    } else {
        '9'
    }
}

/// The decimal numeral of `value`, most significant digit first, without
/// leading zeros.
pub open spec fn decimal_digits(value: nat) -> Seq<char>
    decreases value,
{
    if value < 10 {
        seq![digit_char(value)]
    } else {
        decimal_digits(value / 10).push(digit_char(value % 10))
    }
}

/// The decimal numeral of a signed integer: a minus sign before the numeral
/// of the magnitude when `value` is negative.
pub open spec fn signed_decimal(value: int) -> Seq<char> {
    if value < 0 {
        seq!['-'] + decimal_digits((-value) as nat)
    } else {
        decimal_digits(value as nat)
    }
}

/// Text that is the decimal numeral of some unsigned 128-bit integer.
pub open spec fn is_decimal_text(text: Seq<char>) -> bool {
    exists|value: nat| value <= u128::MAX && text == #[trigger] decimal_digits(value)
}

/// Every numeral is a non-empty run of the characters `0` to `9`.
pub proof fn lemma_decimal_digits_are_digits(value: nat)
    ensures
        decimal_digits(value).len() >= 1,
        forall|i: int|
            0 <= i < decimal_digits(value).len() ==> '0' <= #[trigger] decimal_digits(value)[i]
                <= '9',
    decreases value,
{
    if value >= 10 {
        lemma_decimal_digits_are_digits(value / 10);
    }
}

/// Specifies `String::push` of std: the character is appended at the end.
#[verifier::external_body]
pub(crate) fn push_char(text: &mut String, c: char)
    ensures
        final(text)@ == old(text)@.push(c),
{
    text.push(c)
}

fn digit_of(digit: u8) -> (c: char)
    requires
        digit < 10,
    ensures
        c == digit_char(digit as nat),
{
    if digit == 0 {
        '0'
    } else if digit == 1 {
        '1'
    } else if digit == 2 {
        '2'
    } else if digit == 3 {
        '3'
    } else if digit == 4 {
        '4'
    } else if digit == 5 {
        '5'
    } else if digit == 6 {
        '6'
    } else if digit == 7 {
        '7'
    } else if digit == 8 {
        '8'
    } else {
        '9'
    }
}

fn push_decimal(text: &mut String, value: u128)
    ensures
        final(text)@ == old(text)@ + decimal_digits(value as nat),
    decreases value,
{
    if value >= 10 {
        push_decimal(text, value / 10);
    }
    let digit: u8 = (value % 10) as u8;
    push_char(text, digit_of(digit));
    proof {
        if value >= 10 {
            assert(old(text)@ + decimal_digits((value / 10) as nat).push(
                digit_char((value % 10) as nat),
            ) =~= (old(text)@ + decimal_digits((value / 10) as nat)).push(
                digit_char((value % 10) as nat),
            ));
        } else {
            assert(old(text)@ + seq![digit_char(value as nat)] =~= old(text)@.push(
                digit_char(value as nat),
            ));
        }
    }
}

/// Renders `value` as a decimal numeral.
pub fn decimal_string(value: u128) -> (text: String)
    ensures
        text@ == decimal_digits(value as nat),
        is_decimal_text(text@),
{
    let mut text = String::new();
    push_decimal(&mut text, value);
    assert(text@ =~= decimal_digits(value as nat));
    text
}

/// Renders a signed 64-bit integer as a decimal numeral.
pub fn signed_decimal_string(value: i64) -> (text: String)
    ensures
        text@ == signed_decimal(value as int),
{
    let mut text = String::new();
    if value < 0 {
        push_char(&mut text, '-');
        let magnitude: u128 = (-(value as i128)) as u128;
        push_decimal(&mut text, magnitude);
    } else {
        push_decimal(&mut text, value as u128);
    }
    assert(text@ =~= signed_decimal(value as int));
    text
}

} // verus!
