//! Text helpers: outside conversions the row decoder relies on, and the digit
//! rules that the library's own formatting follows.

use vstd::prelude::*;
use std::str::FromStr;

verus! {

/// The characters that `String::from_utf8_lossy` makes of `b`.
pub uninterp spec fn utf8_lossy(b: Seq<u8>) -> Seq<char>;

/// The 128-bit value of the UUID that `s` spells, if it spells one.
pub uninterp spec fn uuid_of(s: Seq<char>) -> Option<u128>;

/// Whether every byte of `b` is ASCII.
pub open spec fn all_ascii(b: Seq<u8>) -> bool {
    forall|i: int| 0 <= i < b.len() ==> b[i] < 128
}

/// The characters of ASCII bytes.
pub open spec fn ascii_chars(b: Seq<u8>) -> Seq<char> {
    b.map_values(|x: u8| x as char)
}

/// Relies on `String::from_utf8_lossy`: the text of `b`, with each invalid
/// sequence replaced; ASCII bytes are their own characters.
#[verifier::external_body]
pub(crate) fn lossy_text(b: &[u8]) -> (r: String)
    ensures
        r@ == utf8_lossy(b@),
        all_ascii(b@) ==> r@ == ascii_chars(b@),
{
    String::from_utf8_lossy(b).into_owned()
}

/// Relies on `uuid::Uuid::from_str`: the UUID that `s` spells, as its 128-bit
/// value.
#[verifier::external_body]
pub(crate) fn parse_uuid(s: &str) -> (r: Option<u128>)
    ensures
        r == uuid_of(s@),
{
    uuid::Uuid::from_str(s).ok().map(|u| u.as_u128())
}

/// Value of an ASCII hex digit, either case.
pub open spec fn hex_digit_value(c: u8) -> Option<u8> {
    if 48 <= c <= 57 {
        Some((c - 48) as u8)
    } else if 65 <= c <= 70 {
        Some((c - 55) as u8)
    } else if 97 <= c <= 102 {
        Some((c - 87) as u8)
    } else {
        None
    }
}

/// Whether `b` is an even number of hex digits.
pub open spec fn is_hex_text(b: Seq<u8>) -> bool {
    b.len() % 2 == 0 && forall|i: int| 0 <= i < b.len() ==> (#[trigger] hex_digit_value(b[i])) is Some
}

/// The bytes that the hex digits `b` spell, two digits to a byte.
pub open spec fn hex_bytes(b: Seq<u8>) -> Seq<u8> {
    Seq::new(
        (b.len() / 2) as nat,
        |i: int|
            (hex_digit_value(b[2 * i])->0 * 16 + hex_digit_value(b[2 * i + 1])->0) as u8,
    )
}

/// Relies on `hex::decode`: `Some` exactly for an even number of hex digits
/// of either case, with two digits to a byte, the high one first.
#[verifier::external_body]
pub(crate) fn decode_hex(b: &[u8]) -> (r: Option<Vec<u8>>)
    ensures
        is_hex_text(b@) <==> r is Some,
        r matches Some(v) ==> v@ == hex_bytes(b@),
{
    hex::decode(b).ok()
}

/// Whether `c` is an ASCII decimal digit.
pub open spec fn is_digit(c: char) -> bool {
    '0' <= c <= '9'
}

/// The number that the decimal digits `s` spell.
pub open spec fn digits_value(s: Seq<char>) -> nat
    decreases s.len(),
{
    if s.len() == 0 {
        0
    } else {
        digits_value(s.drop_last()) * 10 + (s.last() as nat - '0' as nat) as nat
    }
}

/// The integer that `s` spells as an optional sign followed by at least one
/// decimal digit.
pub open spec fn signed_decimal(s: Seq<char>) -> Option<int> {
    let (negative, body) = if s.len() > 0 && s[0] == '-' {
        (true, s.drop_first())
    } else if s.len() > 0 && s[0] == '+' {
        (false, s.drop_first())
    } else {
        (false, s)
    };
    if body.len() > 0 && forall|i: int| 0 <= i < body.len() ==> is_digit(#[trigger] body[i]) {
        Some(if negative { -digits_value(body) } else { digits_value(body) as int })
    } else {
        None
    }
}

/// The `i16` that `s` spells, if it spells one in range.
pub open spec fn i16_text(s: Seq<char>) -> Option<i16> {
    match signed_decimal(s) {
        Some(v) => if i16::MIN <= v <= i16::MAX {
            Some(v as i16)
        } else {
            None
        },
        None => None,
    }
}

/// Relies on `str::parse::<i16>`: an optional `+` or `-` followed by decimal
/// digits, within the range of `i16`; anything else is an error.
#[verifier::external_body]
pub(crate) fn parse_i16(s: &str) -> (r: Option<i16>)
    ensures
        r == i16_text(s@),
{
    s.parse::<i16>().ok()
}

/// Relies on `String::push`: appends one character.
#[verifier::external_body]
pub(crate) fn push_char(s: &mut String, c: char)
    ensures
        final(s)@ == old(s)@.push(c),
{
    s.push(c)
}

} // verus!
