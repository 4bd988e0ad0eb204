//! Hexadecimal decoding, with the exact outcome for every input string.

use vstd::prelude::*;
use vstd::utf8::encode_utf8;

verus! {

/// Why a string is not the hexadecimal encoding that was asked for.
#[derive(Clone, Copy, Debug, PartialEq, Eq)]
pub enum HexError {
    /// The byte `c` at position `index` is not a hexadecimal digit.
    InvalidHexCharacter { c: char, index: usize },
    /// The string has an odd number of bytes.
    OddLength,
    /// The string does not encode as many bytes as the caller needs.
    InvalidStringLength,
}

/// Whether a byte is one of `0-9`, `a-f`, `A-F`.
pub open spec fn is_hex_digit(c: u8) -> bool {
    (48 <= c <= 57) || (97 <= c <= 102) || (65 <= c <= 70)
}

/// The value of a hexadecimal digit.
pub open spec fn hex_digit_value(c: u8) -> int
    recommends
        is_hex_digit(c),
{
    if 48 <= c <= 57 {
        c - 48
    } else if 97 <= c <= 102 {
        c - 97 + 10
    } else {
        c - 65 + 10
    }
}

/// Whether every byte of `text` before `end` is a hexadecimal digit.
pub open spec fn all_hex_before(text: Seq<u8>, end: int) -> bool {
    forall|i: int| 0 <= i < end ==> is_hex_digit(#[trigger] text[i])
}

/// The position of the first byte that is not a hexadecimal digit.
pub open spec fn is_first_bad_digit(text: Seq<u8>, index: int) -> bool {
    &&& 0 <= index < text.len()
    &&& !is_hex_digit(text[index])
    &&& all_hex_before(text, index)
}

/// The bytes that a string of hexadecimal digit pairs stands for.
pub open spec fn hex_bytes(text: Seq<u8>) -> Seq<u8>
    recommends
        text.len() % 2 == 0,
        all_hex_before(text, text.len() as int),
{
    Seq::new(
        text.len() / 2,
        |i: int| (hex_digit_value(text[2 * i]) * 16 + hex_digit_value(text[2 * i + 1])) as u8,
    )
}

/// What decoding the UTF-8 bytes `text` as hexadecimal gives: the bytes, or
/// the reason why there are none. An odd length is reported before any bad
/// digit, and of several bad digits the first one is reported.
pub open spec fn hex_decoding(text: Seq<u8>, outcome: Result<Seq<u8>, HexError>) -> bool {
    match outcome {
        Ok(bytes) => text.len() % 2 == 0 && all_hex_before(text, text.len() as int) && bytes
            == hex_bytes(text),
        Err(HexError::OddLength) => text.len() % 2 == 1,
        Err(HexError::InvalidHexCharacter { c, index }) => text.len() % 2 == 0
            && is_first_bad_digit(text, index as int) && c as u32 == text[index as int] as u32,
        Err(HexError::InvalidStringLength) => false,
    }
}

/// What decoding the UTF-8 bytes `text` as exactly `len` bytes gives. The
/// length is judged before the digits: an odd length first, then a length
/// other than `2 * len`, then the first bad digit.
pub open spec fn hex_decoding_exact(
    text: Seq<u8>,
    len: int,
    outcome: Result<Seq<u8>, HexError>,
) -> bool {
    match outcome {
        Ok(bytes) => text.len() == 2 * len && all_hex_before(text, text.len() as int) && bytes
            == hex_bytes(text),
        Err(HexError::OddLength) => text.len() % 2 == 1,
        Err(HexError::InvalidStringLength) => text.len() % 2 == 0 && text.len() != 2 * len,
        Err(HexError::InvalidHexCharacter { c, index }) => text.len() == 2 * len
            && is_first_bad_digit(text, index as int) && c as u32 == text[index as int] as u32,
    }
}

/// The outcome of decoding `text` as exactly `len` bytes, as a function of
/// the text.
pub open spec fn decoded_exact(text: Seq<u8>, len: int) -> Result<Seq<u8>, HexError> {
    if text.len() % 2 == 1 {
        Err(HexError::OddLength)
    } else if text.len() != 2 * len {
        Err(HexError::InvalidStringLength)
    } else if all_hex_before(text, text.len() as int) {
        Ok(hex_bytes(text))
    } else {
        let index = choose|index: int| is_first_bad_digit(text, index);
        Err(HexError::InvalidHexCharacter { c: text[index] as char, index: index as usize })
    }
}

/// Whether `text` is a well-formed hexadecimal string.
pub open spec fn is_hex_string(text: Seq<u8>) -> bool {
    text.len() % 2 == 0 && all_hex_before(text, text.len() as int)
}

/// The outcome of `hex_decoding` is unique: first bad digits coincide.
pub proof fn lemma_first_bad_digit_unique(text: Seq<u8>, i: int, j: int)
    requires
        is_first_bad_digit(text, i),
        is_first_bad_digit(text, j),
    ensures
        i == j,
{
    if i < j {
        assert(is_hex_digit(text[i]));
    } else if j < i {
        assert(is_hex_digit(text[j]));
    }
}

/// There is one outcome of decoding as exactly `len` bytes.
pub proof fn lemma_decoded_exact(text: Seq<u8>, len: int, outcome: Result<Seq<u8>, HexError>)
    requires
        hex_decoding_exact(text, len, outcome),
    ensures
        outcome == decoded_exact(text, len),
{
    broadcast use vstd::utf8::char_u32_cast;

    match outcome {
        Err(HexError::InvalidHexCharacter { c, index }) => {
            assert(!is_hex_digit(text[index as int]));
            let chosen = choose|i: int| is_first_bad_digit(text, i);
            lemma_first_bad_digit_unique(text, index as int, chosen);
            let u = c as u32;
            assert(u as char == c);
            assert(text[index as int] as char == c);
        },
        _ => {},
    }
}

/// Calls `hex::decode` on the string. The contract restates that function:
/// an odd byte length gives `OddLength`; otherwise the first byte that is
/// not a hexadecimal digit gives `InvalidHexCharacter` with that byte and
/// its position; otherwise each pair of digits gives one byte, high digit
/// first, upper and lower case alike.
#[verifier::external_body]
pub(crate) fn decode_hex(text: &str) -> (r: Result<Vec<u8>, HexError>)
    ensures
        match r {
            Ok(bytes) => hex_decoding(encode_utf8(text@), Ok(bytes@)),
            Err(e) => hex_decoding(encode_utf8(text@), Err(e)),
        },
{
    match hex::decode(text) {
        Ok(bytes) => Ok(bytes),
        Err(hex::FromHexError::InvalidHexCharacter { c, index }) => Err(
            HexError::InvalidHexCharacter { c, index },
        ),
        Err(hex::FromHexError::OddLength) => Err(HexError::OddLength),
        Err(hex::FromHexError::InvalidStringLength) => Err(HexError::InvalidStringLength),
    }
}

/// Calls `hex::decode_to_slice` with a buffer of 32 bytes. The contract
/// restates that function: an odd byte length gives `OddLength`; otherwise a
/// length other than 64 gives `InvalidStringLength`; otherwise the first
/// byte that is not a hexadecimal digit gives `InvalidHexCharacter`;
/// otherwise the 32 decoded bytes come back.
#[verifier::external_body]
pub(crate) fn decode_hex_32(text: &str) -> (r: Result<[u8; 32], HexError>)
    ensures
        match r {
            Ok(bytes) => hex_decoding_exact(encode_utf8(text@), 32, Ok(bytes@)),
            Err(e) => hex_decoding_exact(encode_utf8(text@), 32, Err(e)),
        },
{
    let mut out = [0u8; 32];
    match hex::decode_to_slice(text, &mut out) {
        Ok(()) => Ok(out),
        Err(hex::FromHexError::InvalidHexCharacter { c, index }) => Err(
            HexError::InvalidHexCharacter { c, index },
        ),
        Err(hex::FromHexError::OddLength) => Err(HexError::OddLength),
        Err(hex::FromHexError::InvalidStringLength) => Err(HexError::InvalidStringLength),
    }
}

} // verus!
