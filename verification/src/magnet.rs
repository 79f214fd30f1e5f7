//! Magnet links, written and re-written by `magnet_url`.

use vstd::prelude::*;
use vstd::string::*;
use vstd::utf8::*;

use crate::text::{concat_all, opt_text, texts};

verus! {

/// The magnet link that `Magnet::new` and `to_string` re-write `text` to, or
/// `None` where `text` does not begin with `magnet:?`.
pub uninterp spec fn magnet_normalized(text: Seq<char>) -> Option<Seq<char>>;

/// `&tr=` and the tracker, for each tracker.
pub open spec fn tracker_params(trackers: Seq<Seq<char>>) -> Seq<Seq<char>> {
    Seq::new(trackers.len(), |i: int| "&tr="@ + trackers[i])
}

/// The magnet link of a topic with a display name and trackers: the exact
/// topic first, then the name if there is one, then the trackers in order.
pub open spec fn magnet_text(
    name: Option<Seq<char>>,
    hash_type: Seq<char>,
    topic: Seq<char>,
    trackers: Seq<Seq<char>>,
) -> Seq<char> {
    "magnet:?"@ + "xt=urn:"@ + hash_type + ":"@ + topic + (match name {
        Some(n) => "&dn="@ + n,
        None => Seq::empty(),
    }) + concat_all(tracker_params(trackers))
}

/// `Magnet::to_string` of a link that holds a display name, a hash type, an
/// exact topic and trackers, and nothing else. The outside function writes
/// `magnet:?`, then `xt=urn:`, the hash type, a colon and the topic, then
/// `&dn=` and the name if there is one, then `&tr=` and each tracker.
#[verifier::external_body]
pub(crate) fn render(name: Option<&str>, hash_type: &str, topic: &str, trackers: &Vec<String>) -> (r:
    String)
    ensures
        r@ == magnet_text(
            match name {
                Some(n) => Some(n@),
                None => None,
            },
            hash_type@,
            topic@,
            texts(trackers@),
        ),
{
    let magnet = magnet_url::Magnet {
        dn: name.map(String::from),
        hash_type: Some(String::from(hash_type)),
        xt: Some(String::from(topic)),
        xl: None,
        xs: None,
        tr: trackers.clone(),
        kt: None,
        ws: None,
        acceptable_source: None,
        mt: None,
    };
    magnet.to_string()
}

/// Whether the exact-length key `xl=` stands at index `i` of `text`.
pub open spec fn length_key_at(text: Seq<char>, i: int) -> bool {
    0 <= i && i + 3 <= text.len() && text[i] == 'x' && text[i + 1] == 'l' && text[i + 2] == '='
}

/// Whether `c` is one of the digits `0` to `9`.
pub open spec fn is_digit(c: char) -> bool {
    48 <= (c as u32) <= 57
}

/// The index at which the run of digits that begins at `from` ends.
pub open spec fn digits_end(text: Seq<char>, from: int) -> int
    decreases text.len() - from,
{
    if 0 <= from < text.len() && is_digit(text[from]) {
        digits_end(text, from + 1)
    } else {
        from
    }
}

/// Whether the key at `i` is followed by one to nineteen digits, a number
/// that always fits in 64 bits.
pub open spec fn length_readable_at(text: Seq<char>, i: int) -> bool {
    1 <= digits_end(text, i + 3) - (i + 3) <= 19
}

/// The magnet links that `Magnet::new` can take: the outside function reads
/// the digits after `xl=` as a 64-bit number and gives up the whole program
/// where that fails; in an ASCII text in which every `xl=` is followed by one
/// to nineteen digits it cannot fail.
pub open spec fn lengths_readable(text: Seq<char>) -> bool {
    is_ascii_chars(text) && forall|i: int| #[trigger]
        length_key_at(text, i) ==> length_readable_at(text, i)
}

/// `Magnet::new`, then `to_string`: the link is taken apart and written
/// again. The outside function refuses exactly the texts that do not begin
/// with `magnet:?`; they give `None`.
#[verifier::external_body]
fn normalize(text: &str) -> (r: Option<String>)
    requires
        lengths_readable(text@),
    ensures
        opt_text(r) == magnet_normalized(text@),
        r is Some <==> "magnet:?"@.is_prefix_of(text@),
{
    match magnet_url::Magnet::new(text) {
        Ok(magnet) => Some(magnet.to_string()),
        Err(_) => None,
    }
}

/// What re-writing a magnet link gives: nothing where the outside function
/// cannot take the text, and what it writes otherwise.
pub open spec fn renormalize_model(text: Seq<char>) -> Option<Seq<char>> {
    if lengths_readable(text) {
        magnet_normalized(text)
    } else {
        None
    }
}

/// A run of digits ends where the run that begins later in it ends.
proof fn lemma_digits_run(text: Seq<char>, from: int, to: int)
    requires
        0 <= from <= to <= text.len(),
        forall|m: int| from <= m < to ==> is_digit(#[trigger] text[m]),
    ensures
        digits_end(text, from) == digits_end(text, to),
        digits_end(text, to) >= to,
    decreases to - from,
{
    if from < to {
        lemma_digits_run(text, from + 1, to);
    } else {
        lemma_digits_end_bounds(text, to);
    }
}

/// A run of digits ends at or after its beginning.
proof fn lemma_digits_end_bounds(text: Seq<char>, from: int)
    requires
        0 <= from <= text.len(),
    ensures
        from <= digits_end(text, from) <= text.len(),
    decreases text.len() - from,
{
    if from < text.len() && is_digit(text[from]) {
        lemma_digits_end_bounds(text, from + 1);
    }
}

/// An ASCII character is determined by its byte.
proof fn lemma_ascii_code(c: char)
    requires
        (c as u32) <= 0x7f,
    ensures
        (c == 'x') == (c as u8 == 120),
        (c == 'l') == (c as u8 == 108),
        (c == '=') == (c as u8 == 61),
        is_digit(c) == (48 <= (c as u8) <= 57),
{
}

/// Whether `Magnet::new` can take `text`.
pub fn can_normalize(text: &str) -> (b: bool)
    ensures
        b == lengths_readable(text@),
{
    if !text.is_ascii() {
        return false;
    }
    let bytes = text.as_bytes();
    proof {
        is_ascii_spec_bytes(text);
        is_ascii_chars_nat_bound(text@);
        assert forall|k: int| 0 <= k < text@.len() implies bytes@[k] == (#[trigger] text@[k]) as u8
            && (text@[k] as u32) <= 0x7f by {
            assert((text@.index(k) as nat) < 128);
        }
    }
    let n = bytes.len();
    if n < 3 {
        return true;
    }
    let mut i: usize = 0;
    while i <= n - 3
        invariant
            3 <= n == text@.len(),
            n == bytes@.len(),
            forall|k: int|
                0 <= k < n ==> bytes@[k] == (#[trigger] text@[k]) as u8 && (text@[k] as u32)
                    <= 0x7f,
            forall|k: int|
                0 <= k < i && #[trigger] length_key_at(text@, k) ==> length_readable_at(text@, k),
        decreases n - i,
    {
        proof {
            lemma_ascii_code(text@[i as int]);
            lemma_ascii_code(text@[i + 1]);
            lemma_ascii_code(text@[i + 2]);
        }
        if bytes[i] == 120 && bytes[i + 1] == 108 && bytes[i + 2] == 61 {
            let start: usize = i + 3;
            let mut j: usize = start;
            while j < n && 48 <= bytes[j] && bytes[j] <= 57 && j - start < 20
                invariant
                    start <= j <= n,
                    n == text@.len(),
                    n == bytes@.len(),
                    j - start <= 20,
                    forall|k: int|
                        0 <= k < n ==> bytes@[k] == (#[trigger] text@[k]) as u8 && (text@[k] as u32)
                            <= 0x7f,
                    forall|m: int| start <= m < j ==> is_digit(#[trigger] text@[m]),
                decreases n - j,
            {
                proof {
                    lemma_ascii_code(text@[j as int]);
                }
                j = j + 1;
            }
            let count: usize = j - start;
            proof {
                lemma_digits_run(text@, start as int, j as int);
                if j < n {
                    lemma_ascii_code(text@[j as int]);
                }
            }
            if count == 0 || count > 19 {
                assert(length_key_at(text@, i as int));
                assert(!length_readable_at(text@, i as int));
                return false;
            }
            assert(digits_end(text@, j as int) == j);
        }
        i = i + 1;
    }
    assert forall|k: int| #[trigger] length_key_at(text@, k) implies length_readable_at(
        text@,
        k,
    ) by {
        assert(k < i);
    }
    true
}

/// Re-writes a magnet link through the outside parser. The link is
/// re-written when it begins with `magnet:?` and the parser can take it.
pub fn renormalize(text: &str) -> (r: Option<String>)
    ensures
        opt_text(r) == renormalize_model(text@),
        r is Some <==> lengths_readable(text@) && "magnet:?"@.is_prefix_of(text@),
{
    if can_normalize(text) {
        normalize(text)
    } else {
        None
    }
}

} // verus!
