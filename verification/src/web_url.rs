//! Absolute URLs, held as their canonical text.
//!
//! All parsing and rewriting is done by the `url` crate. This module gives
//! each of its operations a name in specifications and wraps the results in
//! [`Url`], a text that the parser maps to itself.

use vstd::prelude::*;
use vstd::string::*;
use vstd::utf8::*;

use crate::text::{first_index, str_eq};

verus! {

/// The longest URL text, in bytes, that this library holds, and the longest
/// piece it hands to a rewriting operation. The rewriting operations of the
/// `url` crate index the text with 32 bits; with these limits no result comes
/// near that range.
pub const MAX_URL_LEN: usize = 0x0100_0000;

/// The canonical text of the URL that `Url::parse` reads from `text`, or
/// `None` where it refuses `text`.
pub uninterp spec fn url_canonical(text: Seq<char>) -> Option<Seq<char>>;

/// The scheme of the URL with the text `href`: what stands before the first
/// colon.
pub open spec fn url_scheme(href: Seq<char>) -> Seq<char> {
    href.subrange(0, first_index(href, ':', 0))
}

/// `Url::authority` of the URL with the text `href`.
pub uninterp spec fn url_authority(href: Seq<char>) -> Seq<char>;

/// `Url::path` of the URL with the text `href`.
pub uninterp spec fn url_path(href: Seq<char>) -> Seq<char>;

/// `Url::query` of the URL with the text `href`.
pub uninterp spec fn url_query(href: Seq<char>) -> Option<Seq<char>>;

/// The last of `Url::path_segments` of the URL with the text `href`, or
/// `None` where the URL has no path segments.
pub uninterp spec fn url_last_segment(href: Seq<char>) -> Option<Seq<char>>;

/// The text of `Url::join` of the URL with the text `base` and `reference`.
pub uninterp spec fn url_joined(base: Seq<char>, reference: Seq<char>) -> Option<Seq<char>>;

/// The text after `path_segments_mut().push(segment)`, or `None` where the
/// URL cannot be a base.
pub uninterp spec fn url_segment_pushed(href: Seq<char>, segment: Seq<char>) -> Option<Seq<char>>;

/// The text after `Url::set_path(path)`.
pub uninterp spec fn url_path_set(href: Seq<char>, path: Seq<char>) -> Seq<char>;

/// The text after `Url::set_query(query)`.
pub uninterp spec fn url_query_set(href: Seq<char>, query: Option<Seq<char>>) -> Seq<char>;

/// The text after `Url::query_pairs_mut()` was taken and dropped unused.
pub uninterp spec fn url_query_opened(href: Seq<char>) -> Seq<char>;

/// The text after `query_pairs_mut().append_pair(key, value)`.
pub uninterp spec fn url_pair_appended(href: Seq<char>, key: Seq<char>, value: Seq<char>) -> Seq<
    char,
>;

/// The text after `query_pairs_mut().clear()`.
pub uninterp spec fn url_pairs_cleared(href: Seq<char>) -> Seq<char>;

/// The number of bytes that `text` takes.
pub open spec fn byte_len(text: Seq<char>) -> nat {
    encode_utf8(text).len()
}

/// A text is a URL text when the parser maps it to itself and it is no longer
/// than [`MAX_URL_LEN`].
pub open spec fn is_url_text(text: Seq<char>) -> bool {
    url_canonical(text) == Some(text) && byte_len(text) <= MAX_URL_LEN
}

/// `text`, where it is a URL text.
pub open spec fn accepted(text: Seq<char>) -> Option<Seq<char>> {
    if is_url_text(text) {
        Some(text)
    } else {
        None
    }
}

/// `text`, where there is one and it is a URL text.
pub open spec fn accepted_opt(text: Option<Seq<char>>) -> Option<Seq<char>> {
    match text {
        Some(t) => accepted(t),
        None => None,
    }
}

/// The URL text that parsing `text` gives.
pub open spec fn parse_model(text: Seq<char>) -> Option<Seq<char>> {
    accepted_opt(url_canonical(text))
}

/// The URL text that joining gives.
pub open spec fn join_model(base: Seq<char>, reference: Seq<char>) -> Option<Seq<char>> {
    accepted_opt(url_joined(base, reference))
}

/// The URL text with one more path segment.
pub open spec fn push_segment_model(href: Seq<char>, segment: Seq<char>) -> Option<Seq<char>> {
    if byte_len(segment) <= MAX_URL_LEN {
        accepted_opt(url_segment_pushed(href, segment))
    } else {
        None
    }
}

/// The URL text with its path replaced.
pub open spec fn set_path_model(href: Seq<char>, path: Seq<char>) -> Option<Seq<char>> {
    if byte_len(path) <= MAX_URL_LEN {
        accepted(url_path_set(href, path))
    } else {
        None
    }
}

/// The URL text with its query replaced or removed.
pub open spec fn set_query_model(href: Seq<char>, query: Option<Seq<char>>) -> Option<Seq<char>> {
    if query is Some ==> byte_len(query.unwrap()) <= MAX_URL_LEN {
        accepted(url_query_set(href, query))
    } else {
        None
    }
}

/// The URL text with a query that is ready to take pairs.
pub open spec fn open_query_model(href: Seq<char>) -> Option<Seq<char>> {
    accepted(url_query_opened(href))
}

/// The URL text with one more pair at the end of its query.
pub open spec fn append_pair_model(href: Seq<char>, key: Seq<char>, value: Seq<char>) -> Option<
    Seq<char>,
> {
    if byte_len(key) + byte_len(value) <= MAX_URL_LEN {
        accepted(url_pair_appended(href, key, value))
    } else {
        None
    }
}

/// The URL text with an empty query.
pub open spec fn clear_pairs_model(href: Seq<char>) -> Option<Seq<char>> {
    accepted(url_pairs_cleared(href))
}

/// `Url::parse`, then the URL's text. The result is `None` exactly where the
/// parser refuses `text`.
#[verifier::external_body]
fn parse_canonical(text: &str) -> (r: Option<String>)
    ensures
        crate::text::opt_text(r) == url_canonical(text@),
{
    match url::Url::parse(text) {
        Ok(u) => Some(String::from(u)),
        Err(_) => None,
    }
}

/// `Url::scheme` of the URL that `href` is the text of: the scheme without
/// the colon that ends it. The text of a URL begins with its scheme, in
/// which no colon stands. As with the wrappers below, `href` is a URL text:
/// the parser takes it, so the URL is there to be asked.
#[verifier::external_body]
fn scheme_of(href: &str) -> (r: String)
    requires
        is_url_text(href@),
    ensures
        r@ == url_scheme(href@),
{
    let u = url::Url::parse(href).unwrap();
    String::from(u.scheme())
}

/// `Url::authority` of the URL that `href` is the text of.
#[verifier::external_body]
fn authority_of(href: &str) -> (r: String)
    requires
        is_url_text(href@),
    ensures
        r@ == url_authority(href@),
{
    let u = url::Url::parse(href).unwrap();
    String::from(u.authority())
}

/// `Url::path` of the URL that `href` is the text of.
#[verifier::external_body]
fn path_of(href: &str) -> (r: String)
    requires
        is_url_text(href@),
    ensures
        r@ == url_path(href@),
{
    let u = url::Url::parse(href).unwrap();
    String::from(u.path())
}

/// `Url::query` of the URL that `href` is the text of.
#[verifier::external_body]
fn query_of(href: &str) -> (r: Option<String>)
    requires
        is_url_text(href@),
    ensures
        crate::text::opt_text(r) == url_query(href@),
{
    let u = url::Url::parse(href).unwrap();
    u.query().map(String::from)
}

/// The last item of `Url::path_segments`, which is `None` for a URL that
/// cannot be a base.
#[verifier::external_body]
fn last_segment_of(href: &str) -> (r: Option<String>)
    requires
        is_url_text(href@),
    ensures
        crate::text::opt_text(r) == url_last_segment(href@),
{
    let u = url::Url::parse(href).unwrap();
    u.path_segments().and_then(|segments| segments.last()).map(String::from)
}

/// `Url::join`: `reference` resolved against the URL that `base` is the text
/// of, or `None` where the parser refuses it.
#[verifier::external_body]
fn joined(base: &str, reference: &str) -> (r: Option<String>)
    requires
        is_url_text(base@),
    ensures
        crate::text::opt_text(r) == url_joined(base@, reference@),
{
    let u = url::Url::parse(base).unwrap();
    match u.join(reference) {
        Ok(j) => Some(String::from(j)),
        Err(_) => None,
    }
}

/// `Url::path_segments_mut`, then `push(segment)`. `None` where the URL
/// cannot be a base. As with the rewriting wrappers below, the lengths are
/// limited so that the result stays far below the 32-bit range in which the
/// outside crate indexes a URL.
#[verifier::external_body]
fn segment_pushed(href: &str, segment: &str) -> (r: Option<String>)
    requires
        is_url_text(href@),
        byte_len(segment@) <= MAX_URL_LEN,
    ensures
        crate::text::opt_text(r) == url_segment_pushed(href@, segment@),
{
    let mut u = url::Url::parse(href).unwrap();
    match u.path_segments_mut() {
        Ok(mut segments) => {
            segments.push(segment);
        },
        Err(_) => return None,
    }
    Some(String::from(u))
}

/// `Url::set_path`.
#[verifier::external_body]
fn path_set(href: &str, path: &str) -> (r: String)
    requires
        is_url_text(href@),
        byte_len(path@) <= MAX_URL_LEN,
    ensures
        r@ == url_path_set(href@, path@),
{
    let mut u = url::Url::parse(href).unwrap();
    u.set_path(path);
    String::from(u)
}

/// `Url::set_query`.
#[verifier::external_body]
fn query_set(href: &str, query: Option<&str>) -> (r: String)
    requires
        is_url_text(href@),
        query is Some ==> byte_len(query.unwrap()@) <= MAX_URL_LEN,
    ensures
        r@ == url_query_set(
            href@,
            match query {
                Some(q) => Some(q@),
                None => None,
            },
        ),
{
    let mut u = url::Url::parse(href).unwrap();
    u.set_query(query);
    String::from(u)
}

/// `Url::query_pairs_mut`, dropped without a pair being written.
#[verifier::external_body]
fn query_opened(href: &str) -> (r: String)
    requires
        is_url_text(href@),
    ensures
        r@ == url_query_opened(href@),
{
    let mut u = url::Url::parse(href).unwrap();
    drop(u.query_pairs_mut());
    String::from(u)
}

/// `Url::query_pairs_mut`, then `append_pair(key, value)`.
#[verifier::external_body]
fn pair_appended(href: &str, key: &str, value: &str) -> (r: String)
    requires
        is_url_text(href@),
        byte_len(key@) + byte_len(value@) <= MAX_URL_LEN,
    ensures
        r@ == url_pair_appended(href@, key@, value@),
{
    let mut u = url::Url::parse(href).unwrap();
    u.query_pairs_mut().append_pair(key, value);
    String::from(u)
}

/// `Url::query_pairs_mut`, then `clear()`.
#[verifier::external_body]
fn pairs_cleared(href: &str) -> (r: String)
    requires
        is_url_text(href@),
    ensures
        r@ == url_pairs_cleared(href@),
{
    let mut u = url::Url::parse(href).unwrap();
    u.query_pairs_mut().clear();
    String::from(u)
}

/// The number of bytes of `s`.
pub fn byte_count(s: &str) -> (n: usize)
    ensures
        n == byte_len(s@),
{
    s.as_bytes().len()
}

/// An absolute URL. Its text is canonical: the parser of the `url` crate
/// reads it and writes the same text back.
#[derive(Debug, PartialEq, Eq)]
pub struct Url {
    href: String,
}

impl View for Url {
    type V = Seq<char>;

    closed spec fn view(&self) -> Seq<char> {
        self.href@
    }
}

impl Clone for Url {
    fn clone(&self) -> (r: Self)
        ensures
            r@ == self@,
    {
        proof {
            use_type_invariant(self);
        }
        Url { href: self.href.clone() }
    }
}

impl Url {
    #[verifier::type_invariant]
    spec fn well_formed(self) -> bool {
        is_url_text(self.href@)
    }

    /// Wraps `text` where it is a URL text.
    fn accept(text: String) -> (r: Option<Url>)
        ensures
            crate::web_url::opt_url(r) == accepted(text@),
    {
        if byte_count(text.as_str()) > MAX_URL_LEN {
            return None;
        }
        match parse_canonical(text.as_str()) {
            Some(canonical) => {
                if str_eq(canonical.as_str(), text.as_str()) {
                    Some(Url { href: text })
                } else {
                    None
                }
            },
            None => None,
        }
    }

    /// Wraps `text` where there is one and it is a URL text.
    fn accept_opt(text: Option<String>) -> (r: Option<Url>)
        ensures
            crate::web_url::opt_url(r) == accepted_opt(crate::text::opt_text(text)),
    {
        match text {
            Some(t) => Url::accept(t),
            None => None,
        }
    }

    /// Reads a URL from `text`.
    pub fn parse(text: &str) -> (r: Option<Url>)
        ensures
            crate::web_url::opt_url(r) == parse_model(text@),
    {
        Url::accept_opt(parse_canonical(text))
    }

    /// The canonical text, which is never longer than [`MAX_URL_LEN`].
    pub fn as_str(&self) -> (r: &str)
        ensures
            r@ == self@,
            byte_len(self@) <= MAX_URL_LEN,
    {
        proof {
            use_type_invariant(self);
        }
        self.href.as_str()
    }

    /// A copy of the canonical text.
    pub fn to_string(&self) -> (r: String)
        ensures
            r@ == self@,
    {
        self.href.clone()
    }

    /// Two URLs are the same when their texts are.
    pub fn same(&self, other: &Url) -> (b: bool)
        ensures
            b == (self@ == other@),
    {
        str_eq(self.href.as_str(), other.href.as_str())
    }

    /// The scheme, in lower case and without the colon.
    pub fn scheme(&self) -> (r: String)
        ensures
            r@ == url_scheme(self@),
    {
        proof {
            use_type_invariant(self);
        }
        scheme_of(self.href.as_str())
    }

    /// Whether the scheme is `name`.
    pub fn has_scheme(&self, name: &str) -> (b: bool)
        ensures
            b == (url_scheme(self@) == name@),
    {
        let scheme = self.scheme();
        str_eq(scheme.as_str(), name)
    }

    /// User information, host and port, as they stand in the text.
    pub fn authority(&self) -> (r: String)
        ensures
            r@ == url_authority(self@),
    {
        proof {
            use_type_invariant(self);
        }
        authority_of(self.href.as_str())
    }

    /// The path, percent-encoded.
    pub fn path(&self) -> (r: String)
        ensures
            r@ == url_path(self@),
    {
        proof {
            use_type_invariant(self);
        }
        path_of(self.href.as_str())
    }

    /// The query without its question mark, if the URL has one.
    pub fn query(&self) -> (r: Option<String>)
        ensures
            crate::text::opt_text(r) == url_query(self@),
    {
        proof {
            use_type_invariant(self);
        }
        query_of(self.href.as_str())
    }

    /// The last segment of the path, if the URL has path segments.
    pub fn last_path_segment(&self) -> (r: Option<String>)
        ensures
            crate::text::opt_text(r) == url_last_segment(self@),
    {
        proof {
            use_type_invariant(self);
        }
        last_segment_of(self.href.as_str())
    }

    /// Resolves `reference` against this URL.
    pub fn join(&self, reference: &str) -> (r: Option<Url>)
        ensures
            crate::web_url::opt_url(r) == join_model(self@, reference@),
    {
        proof {
            use_type_invariant(self);
        }
        Url::accept_opt(joined(self.href.as_str(), reference))
    }

    /// This URL with `segment` added at the end of its path.
    pub fn push_path_segment(&self, segment: &str) -> (r: Option<Url>)
        ensures
            crate::web_url::opt_url(r) == push_segment_model(self@, segment@),
    {
        proof {
            use_type_invariant(self);
        }
        if byte_count(segment) > MAX_URL_LEN {
            return None;
        }
        Url::accept_opt(segment_pushed(self.href.as_str(), segment))
    }

    /// This URL with `path` in place of its path.
    pub fn with_path(&self, path: &str) -> (r: Option<Url>)
        ensures
            crate::web_url::opt_url(r) == set_path_model(self@, path@),
    {
        proof {
            use_type_invariant(self);
        }
        if byte_count(path) > MAX_URL_LEN {
            return None;
        }
        Url::accept(path_set(self.href.as_str(), path))
    }

    /// This URL with `query` in place of its query, or without a query.
    pub fn with_query(&self, query: Option<&str>) -> (r: Option<Url>)
        ensures
            crate::web_url::opt_url(r) == set_query_model(
                self@,
                match query {
                    Some(q) => Some(q@),
                    None => None,
                },
            ),
    {
        proof {
            use_type_invariant(self);
        }
        match query {
            Some(q) => {
                if byte_count(q) > MAX_URL_LEN {
                    return None;
                }
            },
            None => {},
        }
        Url::accept(query_set(self.href.as_str(), query))
    }

    /// This URL with a query, empty if it had none, to which pairs can be
    /// appended.
    pub fn open_query(&self) -> (r: Option<Url>)
        ensures
            crate::web_url::opt_url(r) == open_query_model(self@),
    {
        proof {
            use_type_invariant(self);
        }
        Url::accept(query_opened(self.href.as_str()))
    }

    /// This URL with the pair `key=value` added at the end of its query.
    pub fn append_query_pair(&self, key: &str, value: &str) -> (r: Option<Url>)
        ensures
            crate::web_url::opt_url(r) == append_pair_model(self@, key@, value@),
    {
        proof {
            use_type_invariant(self);
        }
        let k = byte_count(key);
        let v = byte_count(value);
        if k > MAX_URL_LEN || v > MAX_URL_LEN - k {
            return None;
        }
        Url::accept(pair_appended(self.href.as_str(), key, value))
    }

    /// This URL with an empty query.
    pub fn clear_query_pairs(&self) -> (r: Option<Url>)
        ensures
            crate::web_url::opt_url(r) == clear_pairs_model(self@),
    {
        proof {
            use_type_invariant(self);
        }
        Url::accept(pairs_cleared(self.href.as_str()))
    }
}

/// The view of an optional URL.
pub open spec fn opt_url(o: Option<Url>) -> Option<Seq<char>> {
    match o {
        Some(u) => Some(u@),
        None => None,
    }
}

/// The view of an optional reference to a URL.
pub open spec fn opt_url_ref(o: Option<&Url>) -> Option<Seq<char>> {
    match o {
        Some(u) => Some(u@),
        None => None,
    }
}

} // verus!
