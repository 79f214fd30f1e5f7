//! The `application/x-www-form-urlencoded` form of names and values, as the
//! serializer of the `url` crate writes it.

use vstd::prelude::*;
use vstd::string::*;
use vstd::utf8::*;

use crate::percent::escaped_byte;

verus! {

/// The bytes that the form keeps: ASCII letters and digits and `* - . _`.
pub open spec fn is_form_safe(b: u8) -> bool {
    ||| 48 <= b <= 57
    ||| 65 <= b <= 90
    ||| 97 <= b <= 122
    ||| b == 42
    ||| b == 45
    ||| b == 46
    ||| b == 95
}

/// What one byte becomes: itself if the form keeps it, `+` for a space, and
/// `%` with two upper-case hexadecimal digits otherwise.
pub open spec fn form_byte(b: u8) -> Seq<char> {
    if is_form_safe(b) {
        seq![b as char]
    } else if b == 32 {
        seq!['+']
    } else {
        escaped_byte(b)
    }
}

/// What a byte string becomes: what its bytes become, in order.
pub open spec fn form_bytes(bytes: Seq<u8>) -> Seq<char>
    decreases bytes.len(),
{
    if bytes.len() == 0 {
        Seq::empty()
    } else {
        form_bytes(bytes.drop_last()) + form_byte(bytes.last())
    }
}

/// The form of a name or a value: that of its UTF-8 bytes.
pub open spec fn form_encoded(text: Seq<char>) -> Seq<char> {
    form_bytes(encode_utf8(text))
}

/// A serialized form with one more pair: an `&` if there was something
/// before, then the name, `=` and the value.
pub open spec fn form_pair_appended(target: Seq<char>, key: Seq<char>, value: Seq<char>) -> Seq<
    char,
> {
    target + (if target.len() > 0 {
        seq!['&']
    } else {
        Seq::empty()
    }) + form_encoded(key) + seq!['='] + form_encoded(value)
}

/// `form_urlencoded::Serializer::new` on a copy of `target`, then
/// `append_pair(key, value)` and `finish()`. The outside function puts `&`
/// behind a target that is not empty, then writes the name, `=` and the
/// value; of either it keeps the bytes that are letters, digits or one of
/// `* - . _`, writes `+` for a space and percent-encodes every other byte.
#[verifier::external_body]
pub(crate) fn form_append_pair(target: &str, key: &str, value: &str) -> (r: String)
    ensures
        r@ == form_pair_appended(target@, key@, value@),
{
    url::form_urlencoded::Serializer::new(String::from(target)).append_pair(key, value).finish()
}

/// `form_urlencoded::Serializer::new` on an empty string, then
/// `append_key_only(key)` and `finish()`: the name alone, in its form.
#[verifier::external_body]
pub(crate) fn form_encode_key(key: &str) -> (r: String)
    ensures
        r@ == form_encoded(key@),
{
    url::form_urlencoded::Serializer::new(String::new()).append_key_only(key).finish()
}

} // verus!
