//! Small operations on text that the rest of the library shares.

use vstd::prelude::*;
use vstd::string::*;
use vstd::utf8::*;

verus! {

/// The view of an optional string.
pub open spec fn opt_text(o: Option<String>) -> Option<Seq<char>> {
    match o {
        Some(s) => Some(s@),
        None => None,
    }
}

/// The views of a list of strings, in order.
pub open spec fn texts(v: Seq<String>) -> Seq<Seq<char>> {
    Seq::new(v.len(), |i: int| v[i]@)
}

/// All the pieces of `parts` written one after another.
pub open spec fn concat_all(parts: Seq<Seq<char>>) -> Seq<char>
    decreases parts.len(),
{
    if parts.len() == 0 {
        Seq::empty()
    } else {
        concat_all(parts.drop_last()) + parts.last()
    }
}

/// The decimal digits of `n`, most significant first, without leading zeros.
pub open spec fn decimal_text(n: nat) -> Seq<char>
    decreases n,
{
    if n < 10 {
        seq![digit_char(n)]
    } else {
        decimal_text(n / 10).push(digit_char(n % 10))
    }
}

/// The character for a single decimal digit.
pub open spec fn digit_char(d: nat) -> char
    recommends
        d < 10,
{
    (48 + d) as u8 as char
}

/// `String::push`: appends one character to the end of the string.
#[verifier::external_body]
pub(crate) fn push_char(s: &mut String, c: char)
    ensures
        final(s)@ == old(s)@.push(c),
{
    s.push(c)
}

/// Whether two string slices hold the same characters in the same order.
pub fn str_eq(a: &str, b: &str) -> (r: bool)
    ensures
        r == (a@ == b@),
{
    let x = a.to_owned();
    let y = b.to_owned();
    x == y
}

/// The rest of `s` after `prefix`, or `None` when `s` does not start with
/// `prefix`.
pub fn strip_prefix<'a>(s: &'a str, prefix: &str) -> (r: Option<&'a str>)
    ensures
        match r {
            Some(rest) => s@ == prefix@ + rest@,
            None => !prefix@.is_prefix_of(s@),
        },
{
    let len = s.unicode_len();
    let prefix_len = prefix.unicode_len();
    if prefix_len > len {
        return None;
    }
    let mut i: usize = 0;
    while i < prefix_len
        invariant
            i <= prefix_len <= len,
            len == s@.len(),
            prefix_len == prefix@.len(),
            forall|k: int| 0 <= k < i ==> s@[k] == prefix@[k],
        decreases prefix_len - i,
    {
        if s.get_char(i) != prefix.get_char(i) {
            return None;
        }
        i = i + 1;
    }
    let rest = s.substring_char(prefix_len, len);
    assert(s@ =~= prefix@ + rest@);
    Some(rest)
}

/// Writes `n` in decimal.
pub fn decimal(n: u64) -> (r: String)
    ensures
        r@ == decimal_text(n as nat),
{
    let mut digits: Vec<char> = Vec::new();
    let mut rest: u64 = n;
    // Collect the digits least significant first.
    while rest >= 10
        invariant
            decimal_text(n as nat) == decimal_text(rest as nat) + digits@.reverse(),
        decreases rest,
    {
        let d: u8 = (rest % 10) as u8;
        let c: char = (48u8 + d) as char;
        proof {
            let old_digits = digits@;
            assert(decimal_text(rest as nat) == decimal_text((rest / 10) as nat).push(
                digit_char((rest % 10) as nat),
            ));
            assert(c == digit_char((rest % 10) as nat));
            assert(old_digits.push(c).reverse() =~= seq![c] + old_digits.reverse());
        }
        digits.push(c);
        rest = rest / 10;
    }
    let mut out = String::new();
    let first: char = (48u8 + (rest as u8)) as char;
    push_char(&mut out, first);
    assert(out@ =~= decimal_text(rest as nat));
    let mut i: usize = digits.len();
    while i > 0
        invariant
            i <= digits.len(),
            out@ == decimal_text(rest as nat) + digits@.reverse().subrange(
                0,
                digits.len() - i,
            ),
        decreases i,
    {
        i = i - 1;
        push_char(&mut out, digits[i]);
        assert(digits@.reverse().subrange(0, digits.len() - i) =~= digits@.reverse().subrange(
            0,
            digits.len() - i - 1,
        ).push(digits@[i as int]));
    }
    assert(digits@.reverse().subrange(0, digits.len() as int) =~= digits@.reverse());
    out
}

/// Characters are ordered as their code points are.
proof fn lemma_char_order(c: char)
    ensures
        '\0' <= c,
        c as u32 <= 0x7f ==> c <= '\u{7f}',
{
}

/// A text whose UTF-8 bytes are all below 0x80 is ASCII and has one byte for
/// each character.
pub proof fn lemma_ascii_bytes_ascii_chars(chars: Seq<char>)
    requires
        forall|i: int|
            0 <= i < encode_utf8(chars).len() ==> #[trigger] encode_utf8(chars)[i] < 0x80,
    ensures
        is_ascii_chars(chars),
        encode_utf8(chars).len() == chars.len(),
    decreases chars.len(),
{
    if chars.len() > 0 {
        let s = chars[0] as u32;
        let head = encode_scalar(s);
        let tail = chars.drop_first();
        let rest = encode_utf8(tail);
        let all = encode_utf8(chars);
        assert(all == head + rest);
        char_is_scalar(chars[0]);
        assert(all[0] == head[0]);
        assert(forall|x: u8| 0xC0u8 | x >= 0x80u8) by (bit_vector);
        assert(forall|x: u8| 0xE0u8 | x >= 0x80u8) by (bit_vector);
        assert(forall|x: u8| 0xF0u8 | x >= 0x80u8) by (bit_vector);
        assert(has_width_1_encoding(s));
        assert forall|i: int| 0 <= i < rest.len() implies #[trigger] rest[i] < 0x80 by {
            assert(all[i + 1] == rest[i]);
        }
        lemma_ascii_bytes_ascii_chars(tail);
        lemma_char_order(chars[0]);
        assert forall|i: int| 0 <= i < chars.len() implies '\0' <= #[trigger] chars[i]
            <= '\u{7f}' by {
            if i > 0 {
                assert(chars[i] == tail[i - 1]);
            }
        }
    }
}

/// A copy of a list of strings.
pub fn clone_texts(v: &Vec<String>) -> (r: Vec<String>)
    ensures
        texts(r@) == texts(v@),
{
    let mut out: Vec<String> = Vec::new();
    let mut i: usize = 0;
    while i < v.len()
        invariant
            i <= v.len(),
            out.len() == i,
            forall|k: int| 0 <= k < i ==> (#[trigger] out@[k])@ == v@[k]@,
        decreases v.len() - i,
    {
        out.push(v[i].clone());
        i = i + 1;
    }
    assert(texts(out@) =~= texts(v@));
    out
}

/// Whether two lists hold the same strings in the same order.
pub fn same_texts(a: &Vec<String>, b: &Vec<String>) -> (r: bool)
    ensures
        r == (texts(a@) == texts(b@)),
{
    if a.len() != b.len() {
        assert(texts(a@).len() != texts(b@).len());
        return false;
    }
    let mut i: usize = 0;
    while i < a.len()
        invariant
            i <= a.len(),
            a.len() == b.len(),
            forall|k: int| 0 <= k < i ==> (#[trigger] a@[k])@ == b@[k]@,
        decreases a.len() - i,
    {
        if !str_eq(a[i].as_str(), b[i].as_str()) {
            assert(texts(a@)[i as int] != texts(b@)[i as int]);
            return false;
        }
        i = i + 1;
    }
    assert(texts(a@) =~= texts(b@));
    true
}

/// A copy of an optional string.
pub fn clone_opt_text(o: &Option<String>) -> (r: Option<String>)
    ensures
        opt_text(r) == opt_text(*o),
{
    match o {
        Some(s) => Some(s.clone()),
        None => None,
    }
}

/// Whether two optional strings are both absent or hold the same text.
pub fn same_opt_text(a: &Option<String>, b: &Option<String>) -> (r: bool)
    ensures
        r == (opt_text(*a) == opt_text(*b)),
{
    match (a, b) {
        (Some(x), Some(y)) => str_eq(x.as_str(), y.as_str()),
        (None, None) => true,
        _ => false,
    }
}

/// The first index at or after `from` at which `c` stands in `s`, or the
/// length of `s` where it stands nowhere from there on.
pub open spec fn first_index(s: Seq<char>, c: char, from: int) -> int
    decreases s.len() - from,
{
    if from < 0 || from >= s.len() {
        s.len() as int
    } else if s[from] == c {
        from
    } else {
        first_index(s, c, from + 1)
    }
}

/// The piece of `s` that follows `skips` separators, counted from `from`:
/// the pieces are what stands between two occurrences of `sep`.
pub open spec fn nth_field(s: Seq<char>, sep: char, skips: nat, from: int) -> Option<Seq<char>>
    decreases skips,
{
    let end = first_index(s, sep, from);
    if skips == 0 {
        Some(s.subrange(from, end))
    } else if end >= s.len() {
        None
    } else {
        nth_field(s, sep, (skips - 1) as nat, end + 1)
    }
}

/// Finds `c` in `s`, looking from the character at `from` on. `len` is the
/// number of characters of `s`.
fn find_char(s: &str, len: usize, c: char, from: usize) -> (r: usize)
    requires
        len == s@.len(),
        from <= len,
    ensures
        r == first_index(s@, c, from as int),
        from <= r <= len,
{
    let mut i: usize = from;
    while i < len
        invariant
            from <= i <= len,
            len == s@.len(),
            first_index(s@, c, from as int) == first_index(s@, c, i as int),
        decreases len - i,
    {
        if s.get_char(i) == c {
            return i;
        }
        i = i + 1;
    }
    i
}

/// The piece of `s` that follows `skips` separators.
pub fn field(s: &str, sep: char, skips: usize) -> (r: Option<String>)
    ensures
        opt_text(r) == nth_field(s@, sep, skips as nat, 0),
{
    let len = s.unicode_len();
    let mut from: usize = 0;
    let mut left: usize = skips;
    loop
        invariant
            len == s@.len(),
            from <= len,
            nth_field(s@, sep, skips as nat, 0) == nth_field(s@, sep, left as nat, from as int),
        decreases left,
    {
        let end = find_char(s, len, sep, from);
        if left == 0 {
            let piece = s.substring_char(from, end);
            return Some(String::from_str(piece));
        }
        if end >= len {
            return None;
        }
        from = end + 1;
        left = left - 1;
    }
}

/// A text without the given prefix, if it begins with it.
pub open spec fn without_prefix(s: Seq<char>, prefix: Seq<char>) -> Seq<char> {
    if prefix.is_prefix_of(s) {
        s.subrange(prefix.len() as int, s.len() as int)
    } else {
        s
    }
}

/// Removes `prefix` from the beginning of `s`, if it stands there.
pub fn strip_known_prefix<'a>(s: &'a str, prefix: &str) -> (r: &'a str)
    ensures
        r@ == without_prefix(s@, prefix@),
{
    match strip_prefix(s, prefix) {
        Some(rest) => {
            assert(rest@ =~= s@.subrange(prefix@.len() as int, s@.len() as int));
            rest
        },
        None => s,
    }
}

/// The texts among `values` that are not empty, in their order.
pub open spec fn non_empty(values: Seq<Seq<char>>) -> Seq<Seq<char>>
    decreases values.len(),
{
    if values.len() == 0 {
        Seq::empty()
    } else if values.last().len() == 0 {
        non_empty(values.drop_last())
    } else {
        non_empty(values.drop_last()).push(values.last())
    }
}

/// Copies of the strings among `values` that are not empty.
pub fn non_empty_of(values: &Vec<String>) -> (r: Vec<String>)
    ensures
        texts(r@) == non_empty(texts(values@)),
{
    let mut out: Vec<String> = Vec::new();
    let mut i: usize = 0;
    assert(texts(out@) =~= Seq::empty());
    while i < values.len()
        invariant
            i <= values.len(),
            texts(out@) == non_empty(texts(values@).subrange(0, i as int)),
        decreases values.len() - i,
    {
        proof {
            let next = texts(values@).subrange(0, i + 1);
            assert(next.drop_last() =~= texts(values@).subrange(0, i as int));
            assert(next.last() == values@[i as int]@);
        }
        if !values[i].as_str().is_empty() {
            let ghost before = texts(out@);
            out.push(values[i].clone());
            assert(texts(out@) =~= before.push(values@[i as int]@));
        }
        i = i + 1;
    }
    assert(texts(values@).subrange(0, i as int) =~= texts(values@));
    out
}

} // verus!
