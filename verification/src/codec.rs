//! Text encodings of bytes: hexadecimal and base64. The encoding itself is
//! done by the `hex` and `base64` crates; what is decided here is which
//! values may be encoded and what a failure is called.

use vstd::prelude::*;
use vstd::string::StringSliceAdditionalSpecFns;
use crate::value::ValueKind;

verus! {

/// The lower-case hexadecimal digit of a number below sixteen.
pub open spec fn hex_digit(n: int) -> char {
    if n < 10 {
        ('0' as u8 + n) as u8 as char
    } else {
        ('a' as u8 + n - 10) as u8 as char
    }
}

/// The bytes in hexadecimal: two lower-case digits for each byte, the high
/// half first.
pub open spec fn hex_text(data: Seq<u8>) -> Seq<char> {
    Seq::new(
        2 * data.len(),
        |i: int|
            if i % 2 == 0 {
                hex_digit(data[i / 2] as int / 16)
            } else {
                hex_digit(data[i / 2] as int % 16)
            },
    )
}

/// The value of a hexadecimal digit, upper or lower case.
pub open spec fn hex_value(c: u8) -> Option<int> {
    if 'A' as u8 <= c <= 'F' as u8 {
        Some(c - 'A' as u8 + 10)
    } else if 'a' as u8 <= c <= 'f' as u8 {
        Some(c - 'a' as u8 + 10)
    } else if '0' as u8 <= c <= '9' as u8 {
        Some(c - '0' as u8)
    } else {
        None
    }
}

/// Why a text is no hexadecimal encoding.
#[derive(Clone, Copy, Debug, PartialEq, Eq, Structural)]
pub enum HexError {
    /// The number of digits is odd.
    OddLength,
    /// The byte at `index`, which is `byte`, is no hexadecimal digit.
    InvalidCharacter { byte: u8, index: usize },
}

/// The position of the first byte that is no hexadecimal digit, or the
/// length of the text when every byte is one.
pub open spec fn first_bad_digit(text: Seq<u8>) -> nat
    decreases text.len(),
{
    if text.len() == 0 || hex_value(text[0]) is None {
        0
    } else {
        1 + first_bad_digit(text.skip(1))
    }
}

/// The bytes that the digits of `text` stand for, two digits a byte.
pub open spec fn hex_bytes(text: Seq<u8>) -> Seq<u8> {
    Seq::new(
        text.len() / 2,
        |i: int| (hex_value(text[2 * i])->0 * 16 + hex_value(text[2 * i + 1])->0) as u8,
    )
}

/// The bytes that a hexadecimal text stands for. A text of odd length is
/// refused as such; else the first byte that is no digit is reported.
pub open spec fn hex_decoding(text: Seq<u8>) -> Result<Seq<u8>, HexError> {
    if text.len() % 2 != 0 {
        Err(HexError::OddLength)
    } else if first_bad_digit(text) < text.len() {
        Err(
            HexError::InvalidCharacter {
                byte: text[first_bad_digit(text) as int],
                index: first_bad_digit(text) as usize,
            },
        )
    } else {
        Ok(hex_bytes(text))
    }
}

/// A result of decoding, over sequences.
pub open spec fn decoded_view<E>(out: Result<Vec<u8>, E>) -> Result<Seq<u8>, E> {
    match out {
        Ok(data) => Ok(data@),
        Err(e) => Err(e),
    }
}

/// The base64 text of `data`, in the standard alphabet and with padding, as
/// `base64::encode` writes it.
pub uninterp spec fn base64_text(data: Seq<u8>) -> Seq<char>;

/// The bytes that `base64::decode` reads from `text`, or nothing where it
/// refuses the text.
pub uninterp spec fn base64_data(text: Seq<char>) -> Option<Seq<u8>>;

/// How the standard library writes the character with the code `byte` for
/// a reader who debugs (`{:?}`): between single quotes, escaped where it
/// would not show.
pub uninterp spec fn quoted_char(byte: u8) -> Seq<char>;

/// The character with the code `byte` as `{:?}` of the standard library
/// writes it.
#[verifier::external_body]
pub(crate) fn quote_char(byte: u8) -> (out: String)
    ensures
        out@ == quoted_char(byte),
{
    format!("{:?}", byte as char)
}

/// `hex::encode`: two lower-case hexadecimal digits for each byte.
#[verifier::external_body]
fn hex_encode_bytes(data: &[u8]) -> (out: String)
    ensures
        out@ == hex_text(data@),
{
    hex::encode(data)
}

/// `hex::decode`: the bytes that the digits stand for; a text of odd length
/// or with a byte that is no digit is refused, and the first such byte is
/// named, with its place.
#[verifier::external_body]
fn hex_decode_bytes(text: &[u8]) -> (out: Result<Vec<u8>, HexError>)
    ensures
        decoded_view(out) == hex_decoding(text@),
{
    match hex::decode(text) {
        Ok(data) => Ok(data),
        Err(hex::FromHexError::InvalidHexCharacter { c, index }) => Err(
            HexError::InvalidCharacter { byte: c as u8, index },
        ),
        Err(hex::FromHexError::OddLength) => Err(HexError::OddLength),
        Err(hex::FromHexError::InvalidStringLength) => Err(HexError::OddLength),
    }
}

/// `base64::encode`: the standard base64 text of the bytes.
#[verifier::external_body]
#[allow(deprecated)]
pub(crate) fn base64_encode_bytes(data: &[u8]) -> (out: String)
    ensures
        out@ == base64_text(data@),
{
    base64::encode(data)
}

/// `base64::decode`: the bytes that a standard base64 text stands for, or
/// nothing where the text is refused.
#[verifier::external_body]
#[allow(deprecated)]
pub(crate) fn base64_decode_text(text: &str) -> (out: Option<Vec<u8>>)
    ensures
        match base64_data(text@) {
            Some(data) => out matches Some(v) && v@ == data,
            None => out is None,
        },
{
    match base64::decode(text) {
        Ok(data) => Some(data),
        Err(_) => None,
    }
}

/// Why a value was not encoded or decoded.
#[derive(Clone, Copy, Debug, PartialEq, Eq, Structural)]
pub enum CodecError {
    /// Text was given where a buffer is expected.
    TextForBuffer,
    /// The value has a kind that cannot be taken.
    WrongKind(ValueKind),
    /// The text is not in the encoding.
    Malformed,
    /// The text is no hexadecimal encoding.
    Hex(HexError),
}

/// Base64 encodes buffers only; text is refused with a hint of its own.
pub fn serde_base64_encode(kind: ValueKind, data: &[u8]) -> (out: Result<String, CodecError>)
    ensures
        match kind {
            ValueKind::Buffer => out matches Ok(text) && text@ == base64_text(data@),
            ValueKind::Text => out == Err::<String, CodecError>(CodecError::TextForBuffer),
            _ => out == Err::<String, CodecError>(CodecError::WrongKind(kind)),
        },
{
    match kind {
        ValueKind::Buffer => Ok(base64_encode_bytes(data)),
        ValueKind::Text => Err(CodecError::TextForBuffer),
        _ => Err(CodecError::WrongKind(kind)),
    }
}

/// Base64 decodes text only.
pub fn serde_base64_decode(kind: ValueKind, text: &str) -> (out: Result<Vec<u8>, CodecError>)
    ensures
        match kind {
            ValueKind::Text => match base64_data(text@) {
                Some(data) => out matches Ok(v) && v@ == data,
                None => out == Err::<Vec<u8>, CodecError>(CodecError::Malformed),
            },
            _ => out == Err::<Vec<u8>, CodecError>(CodecError::WrongKind(kind)),
        },
{
    match kind {
        ValueKind::Text => match base64_decode_text(text) {
            Some(data) => Ok(data),
            None => Err(CodecError::Malformed),
        },
        _ => Err(CodecError::WrongKind(kind)),
    }
}

/// Hexadecimal encodes buffers and text alike.
pub fn serde_hex_encode(kind: ValueKind, data: &[u8]) -> (out: Result<String, CodecError>)
    ensures
        match kind {
            ValueKind::Buffer => out matches Ok(text) && text@ == hex_text(data@),
            ValueKind::Text => out matches Ok(text) && text@ == hex_text(data@),
            _ => out == Err::<String, CodecError>(CodecError::WrongKind(kind)),
        },
{
    match kind {
        ValueKind::Buffer => Ok(hex_encode_bytes(data)),
        ValueKind::Text => Ok(hex_encode_bytes(data)),
        _ => Err(CodecError::WrongKind(kind)),
    }
}

/// Hexadecimal decodes text only.
pub fn serde_hex_decode(kind: ValueKind, text: &str) -> (out: Result<Vec<u8>, CodecError>)
    ensures
        match kind {
            ValueKind::Text => decoded_view(out) == match hex_decoding(text.spec_bytes()) {
                Ok(data) => Ok::<Seq<u8>, CodecError>(data),
                Err(e) => Err::<Seq<u8>, CodecError>(CodecError::Hex(e)),
            },
            _ => out == Err::<Vec<u8>, CodecError>(CodecError::WrongKind(kind)),
        },
{
    match kind {
        ValueKind::Text => match hex_decode_bytes(text.as_bytes()) {
            Ok(data) => Ok(data),
            Err(e) => Err(CodecError::Hex(e)),
        },
        _ => Err(CodecError::WrongKind(kind)),
    }
}

} // verus!
