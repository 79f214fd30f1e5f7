//! The text form in which a whole stream travels: the stream's JSON, in a
//! zlib frame that stores it without compressing, written in base 64.
//!
//! Reading and writing the JSON itself is left to the caller; this module
//! frames and unframes the bytes.

use vstd::prelude::*;
use vstd::string::*;
use vstd::utf8::*;

use crate::converted_source::StreamSourceTrait;
use crate::stream::Stream;
use crate::text::opt_text;
use crate::web_url::{byte_count, byte_len};

verus! {

/// The longest text, in bytes, that is framed or unframed.
pub const MAX_FRAME_LEN: usize = 0x1000_0000;

/// The base-64 digit for a value below 64: `A` to `Z`, `a` to `z`, `0` to
/// `9`, `+` and `/`.
pub open spec fn base64_digit(v: int) -> char
    recommends
        0 <= v < 64,
{
    if v < 26 {
        (65 + v) as u8 as char
    } else if v < 52 {
        (71 + v) as u8 as char
    } else if v < 62 {
        (v - 4) as u8 as char
    } else if v == 62 {
        '+'
    } else {
        '/'
    }
}

/// The base-64 text of `bytes`, with padding: each three bytes give four
/// digits of six bits each; one or two bytes that are left over give two or
/// three digits, and `=` fills the four.
pub open spec fn base64_text(bytes: Seq<u8>) -> Seq<char>
    decreases bytes.len(),
{
    if bytes.len() == 0 {
        Seq::empty()
    } else if bytes.len() == 1 {
        seq![base64_digit(bytes[0] as int / 4), base64_digit((bytes[0] as int % 4) * 16), '=', '=']
    } else if bytes.len() == 2 {
        seq![
            base64_digit(bytes[0] as int / 4),
            base64_digit((bytes[0] as int % 4) * 16 + bytes[1] as int / 16),
            base64_digit((bytes[1] as int % 16) * 4),
            '=',
        ]
    } else {
        seq![
            base64_digit(bytes[0] as int / 4),
            base64_digit((bytes[0] as int % 4) * 16 + bytes[1] as int / 16),
            base64_digit((bytes[1] as int % 16) * 4 + bytes[2] as int / 64),
            base64_digit(bytes[2] as int % 64),
        ] + base64_text(bytes.skip(3))
    }
}

/// What `base64`'s standard engine reads from a text, given by its bytes, or
/// `None` where the text is not base 64.
pub uninterp spec fn base64_bytes(text: Seq<u8>) -> Option<Seq<u8>>;

/// The zlib frame that `flate2` writes around `bytes` at compression level
/// none, or `None` where it reports an error.
pub uninterp spec fn zlib_stored(bytes: Seq<u8>) -> Option<Seq<u8>>;

/// The bytes that `flate2` reads out of a zlib frame, or `None` where the
/// frame is broken.
pub uninterp spec fn zlib_inflated(frame: Seq<u8>) -> Option<Seq<u8>>;

/// The view of optional bytes.
pub open spec fn opt_bytes(o: Option<Vec<u8>>) -> Option<Seq<u8>> {
    match o {
        Some(v) => Some(v@),
        None => None,
    }
}

/// `Engine::encode` of `base64::engine::general_purpose::STANDARD`: base 64
/// in the standard alphabet, padded with `=`.
#[verifier::external_body]
pub(crate) fn base64_encode(bytes: &[u8]) -> (r: String)
    requires
        bytes@.len() <= MAX_FRAME_LEN,
    ensures
        r@ == base64_text(bytes@),
{
    base64::Engine::encode(&base64::engine::general_purpose::STANDARD, bytes)
}

/// `Engine::decode` of `base64::engine::general_purpose::STANDARD`. An error
/// of the outside function becomes `None`.
#[verifier::external_body]
fn base64_decode(text: &str) -> (r: Option<Vec<u8>>)
    requires
        byte_len(text@) <= MAX_FRAME_LEN,
    ensures
        opt_bytes(r) == base64_bytes(encode_utf8(text@)),
{
    base64::Engine::decode(&base64::engine::general_purpose::STANDARD, text).ok()
}

/// `flate2::write::ZlibEncoder` at `Compression::none()`: the bytes are
/// written into the encoder and the frame is taken with `finish`. An error
/// of either step becomes `None`.
#[verifier::external_body]
fn zlib_store(bytes: &[u8]) -> (r: Option<Vec<u8>>)
    ensures
        opt_bytes(r) == zlib_stored(bytes@),
{
    let mut encoder = flate2::write::ZlibEncoder::new(Vec::new(), flate2::Compression::none());
    match std::io::Write::write_all(&mut encoder, bytes) {
        Ok(()) => encoder.finish().ok(),
        Err(_) => None,
    }
}

/// `flate2::write::ZlibDecoder`: the frame is written into the decoder and
/// the content is taken with `finish`. An error of either step becomes
/// `None`.
#[verifier::external_body]
fn zlib_inflate(frame: &[u8]) -> (r: Option<Vec<u8>>)
    ensures
        opt_bytes(r) == zlib_inflated(frame@),
{
    let mut decoder = flate2::write::ZlibDecoder::new(Vec::new());
    match std::io::Write::write_all(&mut decoder, frame) {
        Ok(()) => decoder.finish().ok(),
        Err(_) => None,
    }
}

/// `String::from_utf8`: the text that the bytes encode, or `None` where they
/// are not valid UTF-8.
#[verifier::external_body]
fn text_of(bytes: Vec<u8>) -> (r: Option<String>)
    ensures
        opt_text(r) == utf8_text(bytes@),
{
    String::from_utf8(bytes).ok()
}

/// The text that `bytes` encode, if they are valid UTF-8.
pub open spec fn utf8_text(bytes: Seq<u8>) -> Option<Seq<char>> {
    if valid_utf8(bytes) {
        Some(decode_utf8(bytes))
    } else {
        None
    }
}

/// The base-64 text of a frame that is short enough.
pub open spec fn framed(frame: Option<Seq<u8>>) -> Option<Seq<char>> {
    match frame {
        Some(f) => if f.len() <= MAX_FRAME_LEN {
            Some(base64_text(f))
        } else {
            None
        },
        None => None,
    }
}

/// The text form of a stream whose JSON is `json`.
pub open spec fn encode_model(json: Seq<char>) -> Option<Seq<char>> {
    framed(zlib_stored(encode_utf8(json)))
}

/// The content of a frame, as text.
pub open spec fn unframed(frame: Option<Seq<u8>>) -> Option<Seq<char>> {
    match frame {
        Some(f) => match zlib_inflated(f) {
            Some(content) => utf8_text(content),
            None => None,
        },
        None => None,
    }
}

/// The JSON of the stream whose text form is `text`.
pub open spec fn decode_model(text: Seq<char>) -> Option<Seq<char>> {
    if byte_len(text) <= MAX_FRAME_LEN {
        unframed(base64_bytes(encode_utf8(text)))
    } else {
        None
    }
}

impl<S: StreamSourceTrait> Stream<S> {
    /// The text form of a stream, from the JSON that was written for it.
    pub fn encode(json: &str) -> (r: Option<String>)
        ensures
            opt_text(r) == encode_model(json@),
    {
        match zlib_store(json.as_bytes()) {
            Some(frame) => {
                if frame.len() <= MAX_FRAME_LEN {
                    Some(base64_encode(frame.as_slice()))
                } else {
                    None
                }
            },
            None => None,
        }
    }

    /// The JSON of the stream whose text form is `stream`, for the caller to
    /// read the stream from.
    pub fn decode(stream: &str) -> (r: Option<String>)
        ensures
            opt_text(r) == decode_model(stream@),
    {
        if byte_count(stream) > MAX_FRAME_LEN {
            return None;
        }
        match base64_decode(stream) {
            Some(frame) => match zlib_inflate(frame.as_slice()) {
                Some(content) => text_of(content),
                None => None,
            },
            None => None,
        }
    }
}

} // verus!
