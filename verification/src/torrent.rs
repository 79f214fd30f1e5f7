//! The identifier of a torrent.

use vstd::prelude::*;
use vstd::string::*;
use vstd::utf8::*;

use crate::base16::{hex_bytes, hex_decode_20, hex_encode, hex_text, FromHexError};
use crate::base16::{lemma_hex_round_trip, lemma_hex_wrong_length};

verus! {

/// The twenty bytes that identify a torrent. Its text form is forty
/// lower-case hexadecimal digits.
#[derive(Debug, Clone, Copy, PartialEq, Eq)]
pub struct InfoHash([u8; 20]);

impl View for InfoHash {
    type V = Seq<u8>;

    closed spec fn view(&self) -> Seq<u8> {
        self.0@
    }
}

impl InfoHash {
    pub fn new(info_hash: [u8; 20]) -> (r: Self)
        ensures
            r@ == info_hash@,
    {
        InfoHash(info_hash)
    }

    pub fn as_array(&self) -> (r: [u8; 20])
        ensures
            r@ == self@,
    {
        self.0
    }

    /// The bytes as a slice.
    pub fn as_ref(&self) -> (r: &[u8])
        ensures
            r@ == self@,
    {
        self.0.as_slice()
    }

    /// Reads the text form. Digits of either case are taken; anything but
    /// forty digits is refused with the reason.
    pub fn from_str(s: &str) -> (r: Result<Self, FromHexError>)
        ensures
            match hex_bytes(s.spec_bytes(), 20) {
                Ok(bytes) => r is Ok && r->Ok_0@ == bytes,
                Err(e) => r == Err::<Self, FromHexError>(e),
            },
    {
        match hex_decode_20(s) {
            Ok(array) => Ok(InfoHash(array)),
            Err(e) => Err(e),
        }
    }

    /// The text form: forty lower-case hexadecimal digits.
    pub fn to_string(&self) -> (r: String)
        ensures
            r@ == hex_text(self@),
            r@.len() == 40,
    {
        hex_encode(self.0.as_slice())
    }

    /// Two identifiers are the same when their bytes are.
    pub fn same(&self, other: &InfoHash) -> (b: bool)
        ensures
            b == (self@ == other@),
    {
        let mut i: usize = 0;
        while i < 20
            invariant
                i <= 20,
                forall|k: int| 0 <= k < i ==> self.0@[k] == other.0@[k],
            decreases 20 - i,
        {
            if self.0[i] != other.0[i] {
                return false;
            }
            i = i + 1;
        }
        assert(self@ =~= other@);
        true
    }
}

/// Writing an identifier as text and reading the text back gives the same
/// twenty bytes.
pub proof fn lemma_info_hash_text_round_trip(hash: InfoHash)
    ensures
        hex_bytes(encode_utf8(hex_text(hash@)), 20) == Ok::<Seq<u8>, FromHexError>(hash@),
{
    lemma_hex_round_trip(hash@);
}

/// No text of 39 or of 41 characters reads as an identifier.
pub proof fn lemma_info_hash_text_length(text: Seq<char>)
    requires
        text.len() == 39 || text.len() == 41,
    ensures
        hex_bytes(encode_utf8(text), 20) is Err,
{
    lemma_hex_wrong_length(text);
}

} // verus!
