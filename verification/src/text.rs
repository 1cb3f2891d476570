//! Numbers as decimal text.

use vstd::prelude::*;

verus! {

/// The character of a decimal digit, for a digit in 0..=9.
pub open spec fn digit_char(digit: nat) -> char {
    ((0x30 + digit) as u8) as char
}

/// The decimal digits of `n`, most significant first and without leading zeros.
pub open spec fn decimal_text(n: nat) -> Seq<char>
    decreases n,
{
    if n < 10 {
        seq![digit_char(n)]
    } else {
        decimal_text(n / 10).push(digit_char(n % 10))
    }
}

/// The decimal digits of `n`, with zeros in front up to `width` characters.
pub open spec fn zero_padded(n: nat, width: nat) -> Seq<char> {
    let digits = decimal_text(n);
    if digits.len() >= width {
        digits
    } else {
        Seq::new((width - digits.len()) as nat, |i: int| '0') + digits
    }
}

/// The decimal text of an integer: a minus sign before a negative one, no sign otherwise.
pub open spec fn int_text(value: int) -> Seq<char> {
    if value < 0 {
        seq!['-'] + decimal_text((-value) as nat)
    } else {
        decimal_text(value as nat)
    }
}

/// `i64::to_string` writes the number in decimal, with a minus sign before a
/// negative one and no other padding.
#[verifier::external_body]
pub(crate) fn integer_text(value: i64) -> (r: String)
    ensures
        r@ == int_text(value as int),
{
    value.to_string()
}

/// `text` without the characters `unwanted` at its end.
pub open spec fn trimmed_end(text: Seq<char>, unwanted: char) -> Seq<char>
    decreases text.len(),
{
    if text.len() > 0 && text.last() == unwanted {
        trimmed_end(text.drop_last(), unwanted)
    } else {
        text
    }
}

/// `str::trim_end_matches` with a character as its pattern removes every
/// occurrence of that character from the end of the text, and nothing else.
#[verifier::external_body]
pub(crate) fn trim_end<'a>(text: &'a str, unwanted: char) -> (r: &'a str)
    ensures
        r@ == trimmed_end(text@, unwanted),
{
    text.trim_end_matches(unwanted)
}

/// Whether the character is one of the ten decimal digits.
pub open spec fn is_digit(c: char) -> bool {
    '0' <= c <= '9'
}

/// The decimal text of a number holds digits only.
pub proof fn lemma_decimal_text_is_digits(n: nat)
    ensures
        decimal_text(n).len() >= 1,
        forall|i: int| 0 <= i < decimal_text(n).len() ==> is_digit(#[trigger] decimal_text(n)[i]),
    decreases n,
{
    if n >= 10 {
        lemma_decimal_text_is_digits(n / 10);
    }
}

/// A padded number holds digits only, and at least as many as asked for.
pub proof fn lemma_zero_padded_is_digits(n: nat, width: nat)
    ensures
        zero_padded(n, width).len() >= width,
        zero_padded(n, width).len() >= 1,
        forall|i: int|
            0 <= i < zero_padded(n, width).len() ==> is_digit(#[trigger] zero_padded(n, width)[i]),
{
    lemma_decimal_text_is_digits(n);
}

} // verus!
