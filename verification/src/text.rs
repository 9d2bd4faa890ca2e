//! Reading numbers from a line of input, by the standard library.
//!
//! The library trims a line with `str::trim` and reads a number from it with
//! `str::parse`. What the two return is stated here as the standard library
//! documents it, and the readers of the menus are proved against that.

use vstd::prelude::*;

verus! {

/// Whether a character is white space: the characters that carry Unicode's
/// property White_Space, by which `str::trim` goes. They are the tab, the
/// line feed, the vertical tab, the form feed, the carriage return and the
/// space; the next-line mark and the no-break space; the ogham space mark;
/// the spaces from the en quad to the hair space; the line and the paragraph
/// separator; and the narrow no-break, the medium mathematical and the
/// ideographic space.
pub open spec fn is_white_space(c: char) -> bool {
    let n = c as u32;
    ||| 0x09 <= n <= 0x0d
    ||| n == 0x20
    ||| n == 0x85
    ||| n == 0xa0
    ||| n == 0x1680
    ||| 0x2000 <= n <= 0x200a
    ||| n == 0x2028
    ||| n == 0x2029
    ||| n == 0x202f
    ||| n == 0x205f
    ||| n == 0x3000
}

/// A text without the white space that it begins with.
pub open spec fn without_leading_space(text: Seq<char>) -> Seq<char>
    decreases text.len(),
{
    if text.len() > 0 && is_white_space(text.first()) {
        without_leading_space(text.drop_first())
    } else {
        text
    }
}

/// A text without the white space that it ends with.
pub open spec fn without_trailing_space(text: Seq<char>) -> Seq<char>
    decreases text.len(),
{
    if text.len() > 0 && is_white_space(text.last()) {
        without_trailing_space(text.drop_last())
    } else {
        text
    }
}

/// What `str::trim` leaves of a text: the text without its leading and
/// trailing white space.
pub open spec fn trimmed(text: Seq<char>) -> Seq<char> {
    without_trailing_space(without_leading_space(text))
}

/// Whether a character is one of the ten decimal digits.
pub open spec fn is_digit(c: char) -> bool {
    '0' <= c <= '9'
}

/// The number that a run of decimal digits spells; leading zeros count for
/// nothing.
pub open spec fn digits_value(digits: Seq<char>) -> nat
    decreases digits.len(),
{
    if digits.len() == 0 {
        0
    } else {
        (10 * digits_value(digits.drop_last()) + (digits.last() as u32 - '0' as u32)) as nat
    }
}

/// Whether a text is one decimal digit or more, and nothing else.
pub open spec fn is_digits(text: Seq<char>) -> bool {
    text.len() > 0 && forall|i: int| 0 <= i < text.len() ==> is_digit(#[trigger] text[i])
}

/// A text without the plus sign that it may begin with.
pub open spec fn without_plus_sign(text: Seq<char>) -> Seq<char> {
    if text.len() > 0 && text.first() == '+' {
        text.drop_first()
    } else {
        text
    }
}

/// The number that a text spells, if it spells one: an optional plus sign,
/// then one decimal digit or more, and nothing else.
pub open spec fn decimal(text: Seq<char>) -> Option<nat> {
    if is_digits(without_plus_sign(text)) {
        Some(digits_value(without_plus_sign(text)))
    } else {
        None
    }
}

/// What `str::parse::<u8>` reads from a text: the number that the text
/// spells, where it spells one that a `u8` holds.
pub open spec fn parsed_u8(text: Seq<char>) -> Option<u8> {
    match decimal(text) {
        Some(n) => if n <= u8::MAX {
            Some(n as u8)
        } else {
            None
        },
        None => None,
    }
}

/// What `str::parse::<u16>` reads from a text: the number that the text
/// spells, where it spells one that a `u16` holds.
pub open spec fn parsed_u16(text: Seq<char>) -> Option<u16> {
    match decimal(text) {
        Some(n) => if n <= u16::MAX {
            Some(n as u16)
        } else {
            None
        },
        None => None,
    }
}

/// `str::trim`: the text without its leading and trailing white space,
/// where white space is what Unicode's property White_Space says.
#[verifier::external_body]
pub(crate) fn trim_line(line: &str) -> (t: &str)
    ensures
        t@ == trimmed(line@),
{
    line.trim()
}

/// `str::parse::<u8>`: the number that the text spells in decimal digits
/// after an optional plus sign. An empty text, a sign alone, any other
/// character and a number over the type's maximum are errors of the
/// standard library, and come back as nothing.
#[verifier::external_body]
pub(crate) fn parse_u8(text: &str) -> (n: Option<u8>)
    ensures
        n == parsed_u8(text@),
{
    match text.parse::<u8>() {
        Ok(n) => Some(n),
        Err(_) => None,
    }
}

/// `str::parse::<u16>`: the number that the text spells in decimal digits
/// after an optional plus sign. An empty text, a sign alone, any other
/// character and a number over the type's maximum are errors of the
/// standard library, and come back as nothing.
#[verifier::external_body]
pub(crate) fn parse_u16(text: &str) -> (n: Option<u16>)
    ensures
        n == parsed_u16(text@),
{
    match text.parse::<u16>() {
        Ok(n) => Some(n),
        Err(_) => None,
    }
}

} // verus!
