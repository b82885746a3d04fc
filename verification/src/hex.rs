//! Hexadecimal text, written and read by the `const-hex` crate.

use vstd::prelude::*;
use vstd::string::*;
use crate::primitives::{decimal_text, u128_to_decimal};

verus! {

/// Why a text is not hexadecimal.
#[derive(Debug, Clone, Copy, PartialEq, Eq, Structural)]
pub enum HexError {
    /// The byte at `index`, counted after a leading `0x`, is no hex digit.
    InvalidHexCharacter { c: char, index: usize },
    /// The text has an odd number of bytes.
    OddLength,
    /// The text does not fit a container of fixed size.
    InvalidStringLength,
}

impl HexError {
    /// The text shown for this error.
    pub open spec fn spec_message(self) -> Seq<char> {
        match self {
            HexError::InvalidHexCharacter { c, index } => "invalid character at position "@
                + decimal_text(index as nat),
            HexError::OddLength => "odd number of digits"@,
            HexError::InvalidStringLength => "invalid string length"@,
        }
    }

    /// The text shown for this error.
    pub fn message(&self) -> (text: String)
        ensures
            text@ == self.spec_message(),
    {
        match self {
            HexError::InvalidHexCharacter { c, index } => {
                let mut text = String::from_str("invalid character at position ");
                let place = u128_to_decimal(*index as u128);
                text.append(place.as_str());
                text
            },
            HexError::OddLength => String::from_str("odd number of digits"),
            HexError::InvalidStringLength => String::from_str("invalid string length"),
        }
    }
}

/// The bytes of a text in UTF-8.
pub open spec fn text_bytes(text: Seq<char>) -> Seq<u8> {
    vstd::utf8::encode_utf8(text)
}

/// The lower-case digit for a value below sixteen.
pub open spec fn hex_digit(v: int) -> char {
    if v < 10 {
        (v + 48) as char
    } else {
        (v + 87) as char
    }
}

/// Two lower-case digits for each byte, the high half first, no prefix.
pub open spec fn hex_text(bytes: Seq<u8>) -> Seq<char> {
    Seq::new(
        2 * bytes.len(),
        |i: int|
            if i % 2 == 0 {
                hex_digit(bytes[i / 2] as int / 16)
            } else {
                hex_digit(bytes[i / 2] as int % 16)
            },
    )
}

/// The value of a hex digit in either case, read as a byte of text.
pub open spec fn hex_digit_value(b: u8) -> Option<int> {
    if 48 <= b <= 57 {
        Some(b - 48)
    } else if 97 <= b <= 102 {
        Some(b - 87)
    } else if 65 <= b <= 70 {
        Some(b - 55)
    } else {
        None
    }
}

/// The text without a leading `0x`.
pub open spec fn strip_hex_prefix(text: Seq<u8>) -> Seq<u8> {
    if text.len() >= 2 && text[0] == 48 && text[1] == 120 {
        text.skip(2)
    } else {
        text
    }
}

/// The place of the first byte of `digits` that is no hex digit; the length
/// of `digits` where every byte is one.
pub open spec fn bad_digit_index(digits: Seq<u8>) -> int
    decreases digits.len(),
{
    if digits.len() == 0 || hex_digit_value(digits[0]) is None {
        0
    } else {
        1 + bad_digit_index(digits.skip(1))
    }
}

/// The bytes that pairs of digits stand for.
pub open spec fn hex_bytes(digits: Seq<u8>) -> Seq<u8> {
    Seq::new(
        digits.len() / 2,
        |i: int|
            (16 * hex_digit_value(digits[2 * i]).unwrap() + hex_digit_value(
                digits[2 * i + 1],
            ).unwrap()) as u8,
    )
}

/// What reading `text` as hexadecimal gives: an odd length is refused first;
/// then a leading `0x` is dropped; then the first byte that is no digit is
/// reported, or the digits are paired into bytes.
pub open spec fn hex_reading(text: Seq<u8>) -> Result<Seq<u8>, HexError> {
    let digits = strip_hex_prefix(text);
    let bad = bad_digit_index(digits);
    if text.len() % 2 != 0 {
        Err(HexError::OddLength)
    } else if bad < digits.len() {
        Err(HexError::InvalidHexCharacter { c: digits[bad] as char, index: bad as usize })
    } else {
        Ok(hex_bytes(digits))
    }
}

/// A reading with the bytes as a sequence.
pub open spec fn reading_view(r: Result<Vec<u8>, HexError>) -> Result<Seq<u8>, HexError> {
    match r {
        Ok(bytes) => Ok(bytes@),
        Err(e) => Err(e),
    }
}

/// Calls `const_hex::encode`. Believed of it: the text holds two lower-case
/// hex digits for each byte, in order, and no prefix.
#[verifier::external_body]
pub(crate) fn encode(data: &[u8]) -> (text: String)
    ensures
        text@ == hex_text(data@),
{
    const_hex::encode(data)
}

/// Calls `const_hex::decode`. Believed of it: it refuses a text of odd
/// length, then drops a leading `0x`, then either reports the first byte that
/// is no hex digit, with its place after the prefix, or returns one byte for
/// each pair of digits of either case.
#[verifier::external_body]
pub(crate) fn decode(text: &[u8]) -> (r: Result<Vec<u8>, HexError>)
    ensures
        reading_view(r) == hex_reading(text@),
{
    match const_hex::decode(text) {
        Ok(bytes) => Ok(bytes),
        Err(const_hex::FromHexError::InvalidHexCharacter { c, index }) => Err(
            HexError::InvalidHexCharacter { c, index },
        ),
        Err(const_hex::FromHexError::OddLength) => Err(HexError::OddLength),
        Err(const_hex::FromHexError::InvalidStringLength) => Err(HexError::InvalidStringLength),
    }
}

} // verus!
