//! Percent-encoding of a URI component: every byte of the text's UTF-8 form
//! is kept if it is unreserved, and written as `%` and two upper-case
//! hexadecimal digits otherwise.

use vstd::prelude::*;
use vstd::string::*;
use vstd::utf8::*;

use crate::text::push_char;

verus! {

/// The bytes that stand for themselves: ASCII letters and digits and
/// `- _ . ! ~ * ' ( )`.
pub open spec fn is_unreserved(b: u8) -> bool {
    ||| 48 <= b <= 57
    ||| 65 <= b <= 90
    ||| 97 <= b <= 122
    ||| b == 45
    ||| b == 95
    ||| b == 46
    ||| b == 33
    ||| b == 126
    ||| b == 42
    ||| b == 39
    ||| b == 40
    ||| b == 41
}

/// The upper-case hexadecimal digit that stands for `v`.
pub open spec fn upper_digit(v: int) -> char
    recommends
        0 <= v < 16,
{
    if v < 10 {
        (48 + v) as u8 as char
    } else {
        (55 + v) as u8 as char
    }
}

/// `%` followed by the two digits of `b`.
pub open spec fn escaped_byte(b: u8) -> Seq<char> {
    seq!['%', upper_digit(b as int / 16), upper_digit(b as int % 16)]
}

/// What one byte becomes.
pub open spec fn encoded_byte(b: u8) -> Seq<char> {
    if is_unreserved(b) {
        seq![b as char]
    } else {
        escaped_byte(b)
    }
}

/// What a byte string becomes: the encodings of its bytes, in order.
pub open spec fn encoded_bytes(bytes: Seq<u8>) -> Seq<char>
    decreases bytes.len(),
{
    if bytes.len() == 0 {
        Seq::empty()
    } else {
        encoded_bytes(bytes.drop_last()) + encoded_byte(bytes.last())
    }
}

/// The percent-encoding of `text` as a URI component.
pub open spec fn uri_component(text: Seq<char>) -> Seq<char> {
    encoded_bytes(encode_utf8(text))
}

/// `percent_encoding::percent_encode_byte`: `%` and the two upper-case
/// hexadecimal digits of the byte.
#[verifier::external_body]
fn escape_byte(b: u8) -> (r: &'static str)
    ensures
        r@ == escaped_byte(b),
{
    percent_encoding::percent_encode_byte(b)
}

/// Whether a byte stands for itself.
pub fn unreserved(b: u8) -> (r: bool)
    ensures
        r == is_unreserved(b),
{
    (48 <= b && b <= 57) || (65 <= b && b <= 90) || (97 <= b && b <= 122) || b == 45 || b == 95
        || b == 46 || b == 33 || b == 126 || b == 42 || b == 39 || b == 40 || b == 41
}

/// Percent-encodes `text` as a URI component.
pub fn encode_uri_component(text: &str) -> (r: String)
    ensures
        r@ == uri_component(text@),
{
    let bytes = text.as_bytes();
    let mut out = String::new();
    let mut i: usize = 0;
    while i < bytes.len()
        invariant
            i <= bytes.len(),
            bytes@ == encode_utf8(text@),
            out@ == encoded_bytes(bytes@.subrange(0, i as int)),
        decreases bytes.len() - i,
    {
        let b: u8 = bytes[i];
        proof {
            let next = bytes@.subrange(0, i + 1);
            assert(next.drop_last() =~= bytes@.subrange(0, i as int));
            assert(next.last() == b);
        }
        if unreserved(b) {
            push_char(&mut out, b as char);
            assert(out@ =~= encoded_bytes(bytes@.subrange(0, i as int)) + seq![b as char]);
        } else {
            out.append(escape_byte(b));
        }
        i = i + 1;
    }
    assert(bytes@.subrange(0, i as int) =~= bytes@);
    out
}

/// No upper-case digit is a colon.
proof fn lemma_upper_digit_no_colon(v: int)
    requires
        0 <= v < 16,
    ensures
        upper_digit(v) != ':',
{
}

/// The encoding of a byte string holds no colon.
proof fn lemma_encoded_bytes_no_colon(bytes: Seq<u8>)
    ensures
        !encoded_bytes(bytes).contains(':'),
    decreases bytes.len(),
{
    if bytes.len() > 0 {
        lemma_encoded_bytes_no_colon(bytes.drop_last());
        let b = bytes.last();
        let head = encoded_bytes(bytes.drop_last());
        let tail = encoded_byte(b);
        lemma_upper_digit_no_colon(b as int / 16);
        lemma_upper_digit_no_colon(b as int % 16);
        assert forall|i: int| 0 <= i < tail.len() implies tail[i] != ':' by {
            if is_unreserved(b) {
                assert(tail[i] == b as char);
                assert(b != 58);
            }
        }
        assert forall|i: int| 0 <= i < (head + tail).len() implies (head + tail)[i] != ':' by {
            if i < head.len() {
                assert(head.contains(head[i]));
            } else {
                assert((head + tail)[i] == tail[i - head.len()]);
            }
        }
    }
}

/// A percent-encoded URI component holds no colon: the colon is not
/// unreserved, and neither `%` nor a digit is one.
pub proof fn lemma_uri_component_no_colon(text: Seq<char>)
    ensures
        !uri_component(text).contains(':'),
{
    lemma_encoded_bytes_no_colon(encode_utf8(text));
}

} // verus!
