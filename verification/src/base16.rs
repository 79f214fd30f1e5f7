//! Base-16 text: two digits per byte, written in lower case and read in
//! either case.

use vstd::prelude::*;
use vstd::string::*;
use vstd::utf8::*;

verus! {

/// Why a text is not the base-16 form of a byte string of the wanted length.
#[derive(Debug, Clone, Copy, PartialEq, Eq)]
pub enum FromHexError {
    /// The byte at `index` of the text is no hexadecimal digit.
    InvalidHexCharacter { c: char, index: usize },
    /// The text has an odd number of bytes.
    OddLength,
    /// The text does not hold two digits for each wanted byte.
    InvalidStringLength,
}

/// The lower-case digit that stands for `v`.
pub open spec fn lower_digit(v: int) -> char
    recommends
        0 <= v < 16,
{
    if v < 10 {
        (48 + v) as u8 as char
    } else {
        (87 + v) as u8 as char
    }
}

/// The value of a digit byte, in either case.
pub open spec fn digit_value(b: u8) -> Option<int> {
    if 48 <= b <= 57 {
        Some(b - 48)
    } else if 97 <= b <= 102 {
        Some(b - 87)
    } else if 65 <= b <= 70 {
        Some(b - 55)
    } else {
        None
    }
}

/// The base-16 text of `bytes`: for each byte its high digit, then its low one.
pub open spec fn hex_text(bytes: Seq<u8>) -> Seq<char> {
    Seq::new(
        2 * bytes.len(),
        |i: int|
            if i % 2 == 0 {
                lower_digit(bytes[i / 2] as int / 16)
            } else {
                lower_digit(bytes[i / 2] as int % 16)
            },
    )
}

/// The index of the first byte at or after `from` that is no digit, or the
/// length of `text` when every byte from there on is one.
pub open spec fn first_non_digit(text: Seq<u8>, from: int) -> int
    decreases text.len() - from,
{
    if from < 0 || from >= text.len() {
        text.len() as int
    } else if digit_value(text[from]) is None {
        from
    } else {
        first_non_digit(text, from + 1)
    }
}

/// The byte that a pair of digits stands for.
pub open spec fn pair_value(high: u8, low: u8) -> u8 {
    (digit_value(high).unwrap() * 16 + digit_value(low).unwrap()) as u8
}

/// What reading `text`, given by its bytes, as `n` bytes in base 16 gives:
/// the bytes, or the first reason in the order length parity, length, digits.
pub open spec fn hex_bytes(text: Seq<u8>, n: nat) -> Result<Seq<u8>, FromHexError> {
    if text.len() % 2 != 0 {
        Err(FromHexError::OddLength)
    } else if text.len() / 2 != n {
        Err(FromHexError::InvalidStringLength)
    } else {
        let bad = first_non_digit(text, 0);
        if bad < text.len() {
            Err(FromHexError::InvalidHexCharacter { c: text[bad] as char, index: bad as usize })
        } else {
            Ok(Seq::new(n, |k: int| pair_value(text[2 * k], text[2 * k + 1])))
        }
    }
}

/// `hex::encode`: each byte becomes two lower-case hexadecimal digits, the
/// high four bits first.
#[verifier::external_body]
pub(crate) fn hex_encode(bytes: &[u8]) -> (r: String)
    ensures
        r@ == hex_text(bytes@),
{
    hex::encode(bytes)
}

/// `hex::decode_to_slice` into twenty bytes. The outside function checks the
/// parity of the text's length, then the length, then reads digit pairs from
/// the left and stops at the first byte that is no digit; its error variants
/// are carried over one for one.
#[verifier::external_body]
pub(crate) fn hex_decode_20(text: &str) -> (r: Result<[u8; 20], FromHexError>)
    ensures
        match hex_bytes(text.spec_bytes(), 20) {
            Ok(bytes) => r is Ok && r->Ok_0@ == bytes,
            Err(e) => r == Err::<[u8; 20], FromHexError>(e),
        },
{
    let mut out = [0u8; 20];
    match hex::decode_to_slice(text, &mut out) {
        Ok(()) => Ok(out),
        Err(hex::FromHexError::InvalidHexCharacter { c, index }) => Err(
            FromHexError::InvalidHexCharacter { c, index },
        ),
        Err(hex::FromHexError::OddLength) => Err(FromHexError::OddLength),
        Err(hex::FromHexError::InvalidStringLength) => Err(FromHexError::InvalidStringLength),
    }
}

/// A lower-case digit is an ASCII character whose byte has the digit's value.
pub proof fn lemma_lower_digit_value(v: int)
    requires
        0 <= v < 16,
    ensures
        lower_digit(v) as u32 <= 0x7f,
        digit_value(lower_digit(v) as u8) == Some(v),
{
}

/// Every digit of a base-16 text is ASCII.
pub proof fn lemma_hex_text_is_ascii(bytes: Seq<u8>)
    ensures
        is_ascii_chars(hex_text(bytes)),
        hex_text(bytes).len() == 2 * bytes.len(),
{
    let t = hex_text(bytes);
    assert forall|i: int| 0 <= i < t.len() implies '\0' <= #[trigger] t[i] <= '\u{7f}' by {
        let b = bytes[i / 2] as int;
        lemma_lower_digit_value(b / 16);
        lemma_lower_digit_value(b % 16);
    }
}

/// From `from` on, a text made of digits only has no first non-digit.
proof fn lemma_all_digits(text: Seq<u8>, from: int)
    requires
        0 <= from <= text.len(),
        forall|i: int| from <= i < text.len() ==> digit_value(#[trigger] text[i]) is Some,
    ensures
        first_non_digit(text, from) == text.len(),
    decreases text.len() - from,
{
    if from < text.len() {
        lemma_all_digits(text, from + 1);
    }
}

/// The first non-digit, where there is one, lies in the text and is no digit.
proof fn lemma_first_non_digit(text: Seq<u8>, from: int)
    requires
        0 <= from <= text.len(),
    ensures
        from <= first_non_digit(text, from) <= text.len(),
        first_non_digit(text, from) < text.len() ==> digit_value(
            text[first_non_digit(text, from)],
        ) is None,
        forall|i: int|
            from <= i < first_non_digit(text, from) ==> digit_value(#[trigger] text[i]) is Some,
    decreases text.len() - from,
{
    if from < text.len() && digit_value(text[from]) is Some {
        lemma_first_non_digit(text, from + 1);
    }
}

/// Writing bytes in base 16 and reading the text back gives the bytes again.
pub proof fn lemma_hex_round_trip(bytes: Seq<u8>)
    ensures
        hex_bytes(encode_utf8(hex_text(bytes)), bytes.len()) == Ok::<Seq<u8>, FromHexError>(bytes),
{
    let t = hex_text(bytes);
    let raw = encode_utf8(t);
    lemma_hex_text_is_ascii(bytes);
    is_ascii_chars_encode_utf8(t);
    assert(raw.len() == 2 * bytes.len());
    assert forall|i: int| 0 <= i < raw.len() implies digit_value(#[trigger] raw[i]) is Some by {
        let b = bytes[i / 2] as int;
        lemma_lower_digit_value(b / 16);
        lemma_lower_digit_value(b % 16);
        assert(raw[i] == t[i] as u8);
    }
    lemma_all_digits(raw, 0);
    let decoded = Seq::new(bytes.len(), |k: int| pair_value(raw[2 * k], raw[2 * k + 1]));
    assert forall|k: int| 0 <= k < bytes.len() implies decoded[k] == bytes[k] by {
        let b = bytes[k] as int;
        lemma_lower_digit_value(b / 16);
        lemma_lower_digit_value(b % 16);
        assert(raw[2 * k] == t[2 * k] as u8);
        assert(raw[2 * k + 1] == t[2 * k + 1] as u8);
        assert((2 * k) / 2 == k && (2 * k) % 2 == 0);
        assert((2 * k + 1) / 2 == k && (2 * k + 1) % 2 == 1);
        assert(b / 16 * 16 + b % 16 == b);
    }
    assert(decoded =~= bytes);
}

/// A text of 39 or of 41 characters is never the base-16 form of twenty bytes.
pub proof fn lemma_hex_wrong_length(text: Seq<char>)
    requires
        text.len() == 39 || text.len() == 41,
    ensures
        hex_bytes(encode_utf8(text), 20) is Err,
{
    let raw = encode_utf8(text);
    if hex_bytes(raw, 20) is Ok {
        lemma_first_non_digit(raw, 0);
        assert forall|i: int| 0 <= i < raw.len() implies #[trigger] raw[i] < 0x80 by {
            assert(digit_value(raw[i]) is Some);
        }
        crate::text::lemma_ascii_bytes_ascii_chars(text);
        assert(raw.len() == 40);
    }
}

} // verus!
