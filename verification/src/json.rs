//! Compact JSON text, built from pieces. Strings are quoted by `serde_json`;
//! the framing of arrays and objects is written here.

use vstd::prelude::*;
use vstd::string::*;

use crate::base16::lower_digit;
use crate::text::{opt_text, push_char, texts};

verus! {

/// What stands for one character inside a JSON string: a backslash before a
/// quote and before a backslash, the short escapes for backspace, tab, line
/// feed, form feed and carriage return, `\u00` and two lower-case
/// hexadecimal digits for the other characters below the space, and the
/// character itself otherwise.
pub open spec fn json_escaped_char(c: char) -> Seq<char> {
    if c == '"' {
        seq!['\\', '"']
    } else if c == '\\' {
        seq!['\\', '\\']
    } else if c == '\u{8}' {
        seq!['\\', 'b']
    } else if c == '\t' {
        seq!['\\', 't']
    } else if c == '\n' {
        seq!['\\', 'n']
    } else if c == '\u{c}' {
        seq!['\\', 'f']
    } else if c == '\r' {
        seq!['\\', 'r']
    } else if (c as u32) < 0x20 {
        seq!['\\', 'u', '0', '0', lower_digit(c as u32 as int / 16), lower_digit(c as u32 as int % 16)]
    } else {
        seq![c]
    }
}

/// The characters of `text` as they stand inside a JSON string.
pub open spec fn json_escaped(text: Seq<char>) -> Seq<char>
    decreases text.len(),
{
    if text.len() == 0 {
        Seq::empty()
    } else {
        json_escaped(text.drop_last()) + json_escaped_char(text.last())
    }
}

/// `text` as a JSON string: its characters, escaped, between two quotes.
pub open spec fn json_string_text(text: Seq<char>) -> Seq<char> {
    seq!['"'] + json_escaped(text) + seq!['"']
}

/// `serde_json::to_string` of a string slice: the text as a JSON string,
/// quotes included. The outside function escapes the quote, the backslash
/// and the characters below the space and writes every other character as
/// it is; it reports no error for a string slice, for it writes into memory.
#[verifier::external_body]
fn quote(text: &str) -> (r: Option<String>)
    ensures
        opt_text(r) == Some(json_string_text(text@)),
{
    serde_json::to_string(text).ok()
}

/// `text` as a JSON string.
pub(crate) fn quoted(text: &str) -> (r: String)
    ensures
        r@ == json_string_text(text@),
{
    quote(text).unwrap()
}

/// The pieces of `items` with a comma between each two.
pub open spec fn comma_joined(items: Seq<Seq<char>>) -> Seq<char>
    decreases items.len(),
{
    if items.len() == 0 {
        Seq::empty()
    } else if items.len() == 1 {
        items[0]
    } else {
        comma_joined(items.drop_last()) + seq![','] + items.last()
    }
}

/// A JSON array whose elements are the given JSON texts.
pub open spec fn array_text(elements: Seq<Seq<char>>) -> Seq<char> {
    seq!['['] + comma_joined(elements) + seq![']']
}

/// Each of `items` as a JSON string.
pub open spec fn quoted_each(items: Seq<Seq<char>>) -> Seq<Seq<char>> {
    Seq::new(items.len(), |i: int| json_string_text(items[i]))
}

/// A JSON array of strings.
pub open spec fn string_array_text(items: Seq<Seq<char>>) -> Seq<char> {
    array_text(quoted_each(items))
}

/// Writes a JSON array from the JSON texts of its elements.
pub fn array_of(elements: &Vec<String>) -> (r: String)
    ensures
        r@ == array_text(texts(elements@)),
{
    let mut out = String::new();
    push_char(&mut out, '[');
    let mut i: usize = 0;
    while i < elements.len()
        invariant
            i <= elements.len(),
            out@ == seq!['['] + comma_joined(texts(elements@).subrange(0, i as int)),
        decreases elements.len() - i,
    {
        proof {
            let next = texts(elements@).subrange(0, i + 1);
            assert(next.drop_last() =~= texts(elements@).subrange(0, i as int));
            assert(next.last() == elements@[i as int]@);
        }
        if i > 0 {
            push_char(&mut out, ',');
        }
        out.append(elements[i].as_str());
        assert(out@ =~= seq!['['] + comma_joined(texts(elements@).subrange(0, i + 1)));
        i = i + 1;
    }
    assert(texts(elements@).subrange(0, i as int) =~= texts(elements@));
    push_char(&mut out, ']');
    out
}

/// Quotes each of `items`.
pub fn quote_each(items: &Vec<String>) -> (r: Vec<String>)
    ensures
        texts(r@) == quoted_each(texts(items@)),
{
    let mut out: Vec<String> = Vec::new();
    let mut i: usize = 0;
    while i < items.len()
        invariant
            i <= items.len(),
            out.len() == i,
            forall|k: int| 0 <= k < i ==> (#[trigger] out@[k])@ == json_string_text(items@[k]@),
        decreases items.len() - i,
    {
        out.push(quoted(items[i].as_str()));
        i = i + 1;
    }
    assert(texts(out@) =~= quoted_each(texts(items@)));
    out
}

/// Writes a JSON array of strings.
pub fn string_array(items: &Vec<String>) -> (r: String)
    ensures
        r@ == string_array_text(texts(items@)),
{
    let quoted = quote_each(items);
    array_of(&quoted)
}

} // verus!
