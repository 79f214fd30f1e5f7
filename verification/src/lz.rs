//! The compressed text that travels in the `lz` query parameter.
//!
//! Compression is done by `lz_str`, in its form that is safe inside a URI
//! component. A text is only handed out as packed when unpacking it gives that
//! text back.

use vstd::prelude::*;
use vstd::string::*;

use crate::text::{opt_text, str_eq};
use crate::web_url::{byte_count, byte_len};

verus! {

/// The longest text, in bytes, that is packed or unpacked. The outside
/// compressor counts its dictionary with 32 bits; with this limit no count
/// comes near that range.
pub const MAX_PAYLOAD_LEN: usize = 0x0100_0000;

/// What `lz_str::compress_to_encoded_uri_component` writes for `text`.
pub uninterp spec fn lz_compressed(text: Seq<char>) -> Seq<char>;

/// The UTF-16 code units that `lz_str::decompress_from_encoded_uri_component`
/// reads from `text`, or `None` where it cannot decompress it.
pub uninterp spec fn lz_decompressed(text: Seq<char>) -> Option<Seq<u16>>;

/// The text that `String::from_utf16` reads from code units, or `None` where
/// they are not valid UTF-16.
pub uninterp spec fn utf16_text(units: Seq<u16>) -> Option<Seq<char>>;

/// The view of optional code units.
pub open spec fn opt_units(o: Option<Vec<u16>>) -> Option<Seq<u16>> {
    match o {
        Some(v) => Some(v@),
        None => None,
    }
}

/// `lz_str::compress_to_encoded_uri_component`.
#[verifier::external_body]
fn compress(text: &str) -> (r: String)
    requires
        byte_len(text@) <= MAX_PAYLOAD_LEN,
    ensures
        r@ == lz_compressed(text@),
{
    lz_str::compress_to_encoded_uri_component(text)
}

/// `lz_str::decompress_from_encoded_uri_component`.
#[verifier::external_body]
fn decompress(text: &str) -> (r: Option<Vec<u16>>)
    requires
        byte_len(text@) <= MAX_PAYLOAD_LEN,
    ensures
        opt_units(r) == lz_decompressed(text@),
{
    lz_str::decompress_from_encoded_uri_component(text)
}

/// `String::from_utf16`. An error of the function becomes `None`.
#[verifier::external_body]
fn text_of_utf16(units: &Vec<u16>) -> (r: Option<String>)
    ensures
        opt_text(r) == utf16_text(units@),
{
    String::from_utf16(units).ok()
}

/// What unpacking `packed` gives: the text of the code units that
/// decompressing gives, where `packed` is within the limit.
pub open spec fn unpack_model(packed: Seq<char>) -> Option<Seq<char>> {
    if byte_len(packed) <= MAX_PAYLOAD_LEN {
        match lz_decompressed(packed) {
            Some(units) => utf16_text(units),
            None => None,
        }
    } else {
        None
    }
}

/// What packing `text` gives: the compressed text, where both texts are
/// within the limit and unpacking leads back to `text`.
pub open spec fn pack_model(text: Seq<char>) -> Option<Seq<char>> {
    if byte_len(text) <= MAX_PAYLOAD_LEN && unpack_model(lz_compressed(text)) == Some(text) {
        Some(lz_compressed(text))
    } else {
        None
    }
}

/// Unpacks a compressed text.
pub fn unpack(packed: &str) -> (r: Option<String>)
    ensures
        opt_text(r) == unpack_model(packed@),
{
    if byte_count(packed) > MAX_PAYLOAD_LEN {
        return None;
    }
    match decompress(packed) {
        Some(units) => text_of_utf16(&units),
        None => None,
    }
}

/// Packs `text` for the `lz` parameter.
pub fn pack(text: &str) -> (r: Option<String>)
    ensures
        opt_text(r) == pack_model(text@),
        r is Some ==> unpack_model(r->Some_0@) == Some(text@),
{
    if byte_count(text) > MAX_PAYLOAD_LEN {
        return None;
    }
    let packed = compress(text);
    match unpack(packed.as_str()) {
        Some(back) => {
            if str_eq(back.as_str(), text) {
                Some(packed)
            } else {
                None
            }
        },
        None => None,
    }
}

/// Whatever was packed unpacks to the text it was packed from.
pub proof fn lemma_pack_round_trip(text: Seq<char>)
    ensures
        pack_model(text) is Some ==> unpack_model(pack_model(text).unwrap()) == Some(text),
{
}

} // verus!
