//! Conversion of a source into one that a player can consume.
//!
//! Each kind of source has a model: a specification function from what the
//! source holds, and the base URL of the streaming helper if one is running,
//! to the converted source or the error. The executable functions are held
//! to these models.

use vstd::prelude::*;
use vstd::string::*;

use crate::base16::{hex_encode, hex_text};
use crate::converted_source::{clone_opt_url, ConvertedStreamSource, ConvertedView};
use crate::error::{ConvertError, SourceKind};
use crate::form::{form_append_pair, form_pair_appended};
use crate::lz::{pack, pack_model, unpack_model};
use crate::ordered_map::{Entries, OrderedMap};
use crate::percent::{encode_uri_component, uri_component};
use crate::stream::{
    part_views,
    url_views,
    ArchiveUrl,
    ProxyHeadersView,
    SourceView,
    Stream,
    StreamProxyHeaders,
    StreamSource,
    opt_headers,
};
use crate::streaming_server::{
    archive_body_text,
    ftp_body_text,
    nzb_body_text,
    ArchiveStreamBody,
    ArchiveStreamOptions,
    FtpStreamBody,
    NzbStreamBody,
};
use crate::text::{
    clone_opt_text,
    clone_texts,
    decimal,
    decimal_text,
    non_empty,
    non_empty_of,
    opt_text,
    str_eq,
    strip_known_prefix,
    texts,
    without_prefix,
};
use crate::torrent::InfoHash;
use crate::web_url::{
    append_pair_model,
    join_model,
    open_query_model,
    opt_url,
    opt_url_ref,
    push_segment_model,
    set_path_model,
    set_query_model,
    url_authority,
    url_last_segment,
    url_path,
    url_query,
    url_scheme,
    Url,
};

verus! {

/// A URL that was built, or the error for a helper URL that cannot be
/// extended.
pub open spec fn built(url: Option<Seq<char>>) -> Result<Seq<char>, ConvertError> {
    match url {
        Some(u) => Ok(u),
        None => Err(ConvertError::InvalidHelperUrl),
    }
}

/// Whether a scheme is `ftp` or `ftps`.
pub open spec fn is_ftp_scheme(scheme: Seq<char>) -> bool {
    scheme == "ftp"@ || scheme == "ftps"@
}

/// Whether the URL has the scheme `ftp` or `ftps`.
pub open spec fn is_ftp(url: Seq<char>) -> bool {
    is_ftp_scheme(url_scheme(url))
}

/// The file name that the last segment of a path gives: the segment itself,
/// which must be there and must not be empty.
pub open spec fn filename_model(last_segment: Option<Seq<char>>) -> Result<
    Seq<char>,
    ConvertError,
> {
    match last_segment {
        Some(name) => if name.len() > 0 {
            Ok(name)
        } else {
            Err(ConvertError::MissingFilename)
        },
        None => Err(ConvertError::MissingFilename),
    }
}

/// The name of the file that an FTP location points at.
pub open spec fn ftp_filename_model(url: Seq<char>) -> Result<Seq<char>, ConvertError> {
    filename_model(url_last_segment(url))
}

/// The request URL for an endpoint and a body: the endpoint with the packed
/// body in the query parameter `lz`.
pub open spec fn with_payload_model(endpoint: Option<Seq<char>>, body: Seq<char>) -> Result<
    Seq<char>,
    ConvertError,
> {
    match endpoint {
        None => Err(ConvertError::InvalidHelperUrl),
        Some(target) => match pack_model(body) {
            None => Err(ConvertError::PayloadEncodingFailure),
            Some(packed) => built(append_pair_model(target, "lz"@, packed)),
        },
    }
}

/// The endpoint of the helper for a file on an FTP server.
pub open spec fn ftp_endpoint_model(helper: Seq<char>, filename: Seq<char>) -> Option<Seq<char>> {
    match join_model(helper, SourceKind::Ftp.endpoint()) {
        Some(base) => join_model(base, filename),
        None => None,
    }
}

/// What becomes of a URL that may point at an FTP server: an FTP location is
/// routed through the helper, any other URL stays as it is.
pub open spec fn ftp_model(helper: Option<Seq<char>>, url: Seq<char>) -> Result<
    Seq<char>,
    ConvertError,
> {
    if is_ftp(url) {
        match helper {
            None => Err(ConvertError::HelperUnavailable(SourceKind::Ftp)),
            Some(h) => match ftp_filename_model(url) {
                Err(e) => Err(e),
                Ok(filename) => with_payload_model(
                    ftp_endpoint_model(h, filename),
                    ftp_body_text(url),
                ),
            },
        }
    } else {
        Ok(url)
    }
}

/// What becomes of a list of URLs, each of which may point at an FTP server.
/// The first that fails, from the left, fails the whole list.
pub open spec fn rewrite_urls_model(helper: Option<Seq<char>>, urls: Seq<Seq<char>>) -> Result<
    Seq<Seq<char>>,
    ConvertError,
>
    decreases urls.len(),
{
    if urls.len() == 0 {
        Ok(Seq::empty())
    } else {
        match rewrite_urls_model(helper, urls.drop_last()) {
            Err(e) => Err(e),
            Ok(done) => match ftp_model(helper, urls.last()) {
                Err(e) => Err(e),
                Ok(url) => Ok(done.push(url)),
            },
        }
    }
}

/// What becomes of the parts of an archive: the URL of each is rewritten,
/// its size is kept. The first part that fails, from the left, fails all.
pub open spec fn rewrite_parts_model(
    helper: Option<Seq<char>>,
    parts: Seq<(Seq<char>, Option<u64>)>,
) -> Result<Seq<(Seq<char>, Option<u64>)>, ConvertError>
    decreases parts.len(),
{
    if parts.len() == 0 {
        Ok(Seq::empty())
    } else {
        match rewrite_parts_model(helper, parts.drop_last()) {
            Err(e) => Err(e),
            Ok(done) => match ftp_model(helper, parts.last().0) {
                Err(e) => Err(e),
                Ok(url) => Ok(done.push((url, parts.last().1))),
            },
        }
    }
}

/// The URL that plays an archive: the helper must run and the archive must
/// have parts; the parts, rewritten, and the options travel as the body of
/// the request to the endpoint of the archive's kind.
pub open spec fn archive_model(
    helper: Option<Seq<char>>,
    kind: SourceKind,
    urls: Seq<(Seq<char>, Option<u64>)>,
    file_idx: Option<u16>,
    file_must_include: Seq<Seq<char>>,
) -> Result<Seq<char>, ConvertError> {
    match helper {
        None => Err(ConvertError::HelperUnavailable(kind)),
        Some(h) => if urls.len() == 0 {
            Err(ConvertError::EmptyPartList(kind))
        } else {
            match rewrite_parts_model(helper, urls) {
                Err(e) => Err(e),
                Ok(parts) => with_payload_model(
                    join_model(h, kind.endpoint()),
                    archive_body_text(parts, file_idx, file_must_include),
                ),
            }
        },
    }
}

/// The URL that plays an NZB source: the helper must run and there must be
/// servers; the servers and the NZB file's URL, rewritten, travel as the body.
pub open spec fn nzb_model(helper: Option<Seq<char>>, nzb_url: Seq<char>, servers: Seq<Seq<char>>) -> Result<
    Seq<char>,
    ConvertError,
> {
    match helper {
        None => Err(ConvertError::HelperUnavailable(SourceKind::Nzb)),
        Some(h) => if servers.len() == 0 {
            Err(ConvertError::EmptyPartList(SourceKind::Nzb))
        } else {
            match rewrite_urls_model(helper, servers) {
                Err(e) => Err(e),
                Ok(rewritten) => match ftp_model(helper, nzb_url) {
                    Err(e) => Err(e),
                    Ok(file) => with_payload_model(
                        join_model(h, SourceKind::Nzb.endpoint()),
                        nzb_body_text(file, rewritten),
                    ),
                },
            }
        },
    }
}

/// A header as the proxy takes it: the name, a colon, the value.
pub open spec fn header_line(name: Seq<char>, value: Seq<char>) -> Seq<char> {
    name + ":"@ + value
}

/// The query of the proxy endpoint after the given headers were added to it
/// under `key`, in the order of the map.
pub open spec fn headers_appended(query: Seq<char>, key: Seq<char>, headers: Entries) -> Seq<char>
    decreases headers.len(),
{
    if headers.len() == 0 {
        query
    } else {
        form_pair_appended(
            headers_appended(query, key, headers.drop_last()),
            key,
            header_line(headers.last().0, headers.last().1),
        )
    }
}

/// The origin that the proxy fetches from: scheme and authority.
pub open spec fn origin_text(scheme: Seq<char>, authority: Seq<char>) -> Seq<char> {
    scheme + "://"@ + authority
}

/// The query of the proxy endpoint for an origin and headers: the origin
/// under `d`, the request headers under `h` and the response headers under
/// `r`.
pub open spec fn proxy_query_text(origin: Seq<char>, headers: ProxyHeadersView) -> Seq<char> {
    let first = form_pair_appended(Seq::empty(), "d"@, origin);
    headers_appended(headers_appended(first, "h"@, headers.request), "r"@, headers.response)
}

/// The query of the proxy endpoint for a target.
pub open spec fn proxy_query_model(target: Seq<char>, headers: ProxyHeadersView) -> Seq<char> {
    proxy_query_text(origin_text(url_scheme(target), url_authority(target)), headers)
}

/// The path of the proxy endpoint: `proxy/`, the proxy query, a slash, and
/// the path of the target without the slash it begins with.
pub open spec fn proxy_path_text(query: Seq<char>, target_path: Seq<char>) -> Seq<char> {
    "proxy/"@ + query + "/"@ + without_leading_slash(target_path)
}

/// A path without the slash that it begins with, if it begins with one.
pub open spec fn without_leading_slash(path: Seq<char>) -> Seq<char> {
    if path.len() > 0 && path[0] == '/' {
        path.subrange(1, path.len() as int)
    } else {
        path
    }
}

/// The URL that fetches `target` through the helper with the given headers:
/// the path is `proxy/`, the proxy query and the target's path; the query
/// is the target's own.
pub open spec fn proxied_model(helper: Seq<char>, target: Seq<char>, headers: ProxyHeadersView) -> Option<
    Seq<char>,
> {
    let path = proxy_path_text(proxy_query_model(target, headers), url_path(target));
    match set_path_model(helper, path) {
        Some(placed) => set_query_model(placed, url_query(target)),
        None => None,
    }
}

/// What becomes of a direct link: a magnet link stays as it is; any other
/// link is rewritten if it points at an FTP server, and is then routed
/// through the helper's proxy if the stream names headers and the helper runs.
pub open spec fn link_model(
    helper: Option<Seq<char>>,
    url: Seq<char>,
    headers: Option<ProxyHeadersView>,
) -> Result<Seq<char>, ConvertError> {
    if url_scheme(url) == "magnet"@ {
        Ok(url)
    } else {
        match ftp_model(helper, url) {
            Err(e) => Err(e),
            Ok(resolved) => if headers is Some && helper is Some {
                built(proxied_model(helper.unwrap(), resolved, headers.unwrap()))
            } else {
                Ok(resolved)
            },
        }
    }
}

/// The streaming URL of a YouTube video: the helper's URL with the segments
/// `yt` and the percent-encoded id.
pub open spec fn youtube_model(helper: Option<Seq<char>>, yt_id: Seq<char>) -> Result<
    Seq<char>,
    ConvertError,
> {
    match helper {
        None => Err(ConvertError::HelperUnavailable(SourceKind::YouTube)),
        Some(h) => match push_segment_model(h, SourceKind::YouTube.endpoint()) {
            Some(base) => built(push_segment_model(base, uri_component(yt_id))),
            None => Err(ConvertError::InvalidHelperUrl),
        },
    }
}

/// The path segment that names the wanted file of a torrent: its index, or
/// `-1` for the largest file where no index is given.
pub open spec fn file_index_text(file_idx: Option<u16>) -> Seq<char> {
    match file_idx {
        Some(index) => decimal_text(index as nat),
        None => "-1"@,
    }
}

/// A tracker without the prefix `tracker:`, then without the prefix `dht:`.
/// The helper marks its own sources with these prefixes; elsewhere a tracker
/// is named alone.
pub open spec fn plain_tracker(tracker: Seq<char>) -> Seq<char> {
    without_prefix(without_prefix(tracker, "tracker:"@), "dht:"@)
}

/// The trackers for the query of a streaming URL: each entry of `announce`
/// that is not empty, without its prefix.
pub open spec fn tracker_values(announce: Seq<Seq<char>>) -> Seq<Seq<char>> {
    let kept = non_empty(announce);
    Seq::new(kept.len(), |i: int| plain_tracker(kept[i]))
}

/// A URL with one query pair added under `key` for each of `values`, in
/// their order.
pub open spec fn pairs_appended_model(url: Option<Seq<char>>, key: Seq<char>, values: Seq<Seq<char>>) -> Option<
    Seq<char>,
>
    decreases values.len(),
{
    if values.len() == 0 {
        url
    } else {
        match pairs_appended_model(url, key, values.drop_last()) {
            Some(u) => append_pair_model(u, key, values.last()),
            None => None,
        }
    }
}

/// The helper's URL with the two path segments that name a torrent and the
/// wanted file.
pub open spec fn torrent_path_model(helper: Seq<char>, info_hash: Seq<u8>, file_idx: Option<u16>) -> Option<
    Seq<char>,
> {
    match push_segment_model(helper, hex_text(info_hash)) {
        Some(base) => push_segment_model(base, file_index_text(file_idx)),
        None => None,
    }
}

/// The streaming URL of a torrent: the helper's URL with the info hash and
/// the file index as path segments, and a query that holds a pair `tr` for
/// each tracker and a pair `f` for each name that the file must include.
/// Entries that are empty give no pair.
pub open spec fn torrent_model(
    helper: Option<Seq<char>>,
    info_hash: Seq<u8>,
    file_idx: Option<u16>,
    announce: Seq<Seq<char>>,
    file_must_include: Seq<Seq<char>>,
) -> Result<Seq<char>, ConvertError> {
    match helper {
        None => Err(ConvertError::HelperUnavailable(SourceKind::Torrent)),
        Some(h) => match torrent_path_model(h, info_hash, file_idx) {
            None => Err(ConvertError::InvalidHelperUrl),
            Some(path) => built(
                pairs_appended_model(
                    pairs_appended_model(open_query_model(path), "tr"@, tracker_values(announce)),
                    "f"@,
                    non_empty(file_must_include),
                ),
            ),
        },
    }
}

/// The converted source that holds `url`.
pub open spec fn as_link(url: Result<Seq<char>, ConvertError>) -> Result<
    ConvertedView,
    ConvertError,
> {
    match url {
        Ok(u) => Ok(ConvertedView::Url { url: u }),
        Err(e) => Err(e),
    }
}

/// What converting a source gives, for each kind of source, with and without
/// a helper.
pub open spec fn convert_model(
    source: SourceView,
    headers: Option<ProxyHeadersView>,
    helper: Option<Seq<char>>,
) -> Result<ConvertedView, ConvertError> {
    match source {
        SourceView::Url { url } => as_link(link_model(helper, url, headers)),
        SourceView::YouTube { yt_id } => match youtube_model(helper, yt_id) {
            Ok(url) => Ok(ConvertedView::YouTube { url, yt_id }),
            Err(e) => Err(e),
        },
        SourceView::Archive { kind, urls, file_idx, file_must_include } => as_link(
            archive_model(helper, kind, urls, file_idx, file_must_include),
        ),
        SourceView::Nzb { nzb_url, servers } => as_link(nzb_model(helper, nzb_url, servers)),
        SourceView::Torrent {
            info_hash,
            file_idx,
            announce,
            file_must_include,
        } => match torrent_model(helper, info_hash, file_idx, announce, file_must_include) {
            Ok(url) => Ok(
                ConvertedView::Torrent { url, info_hash, file_idx, announce, file_must_include },
            ),
            Err(e) => Err(e),
        },
        SourceView::PlayerFrame { player_frame_url } => Ok(
            ConvertedView::PlayerFrame { player_frame_url },
        ),
        SourceView::External {
            external_url,
            android_tv_url,
            tizen_url,
            webos_url,
        } => Ok(ConvertedView::External { external_url, android_tv_url, tizen_url, webos_url }),
    }
}

/// Whether a result holds the URL, or is the error, that the model gives.
pub open spec fn url_result_is(r: Result<Url, ConvertError>, model: Result<Seq<char>, ConvertError>) -> bool {
    match model {
        Ok(u) => r is Ok && r->Ok_0@ == u,
        Err(e) => r is Err && r->Err_0 == e,
    }
}

/// The endpoint with the packed body in its query parameter `lz`.
pub fn with_payload(endpoint: Option<Url>, body: &str) -> (r: Result<Url, ConvertError>)
    ensures
        url_result_is(r, with_payload_model(opt_url(endpoint), body@)),
{
    let target = match endpoint {
        Some(t) => t,
        None => {
            return Err(ConvertError::InvalidHelperUrl);
        },
    };
    let packed = match pack(body) {
        Some(p) => p,
        None => {
            return Err(ConvertError::PayloadEncodingFailure);
        },
    };
    match target.append_query_pair("lz", packed.as_str()) {
        Some(url) => Ok(url),
        None => Err(ConvertError::InvalidHelperUrl),
    }
}

/// Adds one query pair under `key` for each of `values`.
fn append_pairs(url: Option<Url>, key: &str, values: &Vec<String>) -> (r: Option<Url>)
    ensures
        opt_url(r) == pairs_appended_model(opt_url(url), key@, texts(values@)),
{
    let mut current = url;
    let mut i: usize = 0;
    while i < values.len()
        invariant
            i <= values.len(),
            opt_url(current) == pairs_appended_model(
                opt_url(url),
                key@,
                texts(values@).subrange(0, i as int),
            ),
        decreases values.len() - i,
    {
        proof {
            let next = texts(values@).subrange(0, i + 1);
            assert(next.drop_last() =~= texts(values@).subrange(0, i as int));
            assert(next.last() == values@[i as int]@);
        }
        current = match current {
            Some(u) => u.append_query_pair(key, values[i].as_str()),
            None => None,
        };
        i = i + 1;
    }
    assert(texts(values@).subrange(0, i as int) =~= texts(values@));
    current
}

/// Removes the prefixes that only the helper reads from a tracker.
pub fn strip_tracker(tracker: &str) -> (r: &str)
    ensures
        r@ == plain_tracker(tracker@),
{
    strip_known_prefix(strip_known_prefix(tracker, "tracker:"), "dht:")
}

/// The trackers for the query of a streaming URL.
fn tracker_values_of(announce: &Vec<String>) -> (r: Vec<String>)
    ensures
        texts(r@) == tracker_values(texts(announce@)),
{
    let kept = non_empty_of(announce);
    let mut out: Vec<String> = Vec::new();
    let mut i: usize = 0;
    while i < kept.len()
        invariant
            i <= kept.len(),
            out.len() == i,
            forall|k: int| 0 <= k < i ==> (#[trigger] out@[k])@ == plain_tracker(kept@[k]@),
        decreases kept.len() - i,
    {
        out.push(String::from_str(strip_tracker(kept[i].as_str())));
        i = i + 1;
    }
    assert(texts(out@) =~= tracker_values(texts(announce@)));
    out
}

/// Adds the headers of `headers` to the proxy query under `key`.
fn append_headers(query: String, key: &str, headers: &OrderedMap) -> (r: String)
    ensures
        r@ == headers_appended(query@, key@, headers@),
{
    let mut current = query;
    let mut i: usize = 0;
    while i < headers.len()
        invariant
            i <= headers@.len(),
            current@ == headers_appended(query@, key@, headers@.subrange(0, i as int)),
        decreases headers@.len() - i,
    {
        proof {
            let next = headers@.subrange(0, i + 1);
            assert(next.drop_last() =~= headers@.subrange(0, i as int));
            assert(next.last() == headers@[i as int]);
        }
        let (name, value) = headers.entry(i).unwrap();
        let header = proxy_header(name, value);
        current = form_append_pair(current.as_str(), key, header.as_str());
        i = i + 1;
    }
    assert(headers@.subrange(0, i as int) =~= headers@);
    current
}

/// A header as the proxy takes it.
pub fn proxy_header(name: &str, value: &str) -> (r: String)
    ensures
        r@ == header_line(name@, value@),
{
    let mut header = String::from_str(name);
    header.append(":");
    header.append(value);
    header
}

/// The origin that the proxy fetches from.
pub fn proxy_origin(scheme: &str, authority: &str) -> (r: String)
    ensures
        r@ == origin_text(scheme@, authority@),
{
    let mut origin = String::from_str(scheme);
    origin.append("://");
    origin.append(authority);
    origin
}

/// The path of the proxy endpoint for a proxy query and the path of the
/// target.
pub fn proxy_path(query: &str, target_path: &str) -> (r: String)
    ensures
        r@ == proxy_path_text(query@, target_path@),
{
    let mut path = String::from_str("proxy/");
    path.append(query);
    path.append("/");
    path.append(strip_leading_slash(target_path));
    path
}

/// The file name that the last segment of a path gives.
pub fn filename_of(last_segment: Option<String>) -> (r: Result<String, ConvertError>)
    ensures
        match filename_model(opt_text(last_segment)) {
            Ok(name) => r is Ok && r->Ok_0@ == name,
            Err(e) => r is Err && r->Err_0 == e,
        },
{
    match last_segment {
        Some(name) => {
            if !name.as_str().is_empty() {
                Ok(name)
            } else {
                Err(ConvertError::MissingFilename)
            }
        },
        None => Err(ConvertError::MissingFilename),
    }
}

/// Whether a scheme is `ftp` or `ftps`.
pub fn ftp_scheme(scheme: &str) -> (b: bool)
    ensures
        b == is_ftp_scheme(scheme@),
{
    str_eq(scheme, "ftp") || str_eq(scheme, "ftps")
}

/// The path segment that names the wanted file of a torrent.
pub fn file_index_segment(file_idx: Option<u16>) -> (r: String)
    ensures
        r@ == file_index_text(file_idx),
{
    match file_idx {
        Some(index) => decimal(index as u64),
        // This tells the helper to pick the largest file of the torrent.
        None => String::from_str("-1"),
    }
}

/// Removes the slash that a path begins with, if it begins with one.
pub fn strip_leading_slash(path: &str) -> (r: &str)
    ensures
        r@ == without_leading_slash(path@),
{
    let len = path.unicode_len();
    if len > 0 && path.get_char(0) == '/' {
        path.substring_char(1, len)
    } else {
        path
    }
}

/// The query of the proxy endpoint for an origin and headers.
pub fn proxy_query(origin: &str, headers: &StreamProxyHeaders) -> (r: String)
    ensures
        r@ == proxy_query_text(origin@, headers@),
{
    let first = form_append_pair("", "d", origin);
    proof {
        reveal_strlit("");
        assert(""@ =~= Seq::<char>::empty());
    }
    let with_request = append_headers(first, "h", &headers.request);
    append_headers(with_request, "r", &headers.response)
}

/// Routes `target` through the helper's proxy, which sets the given headers.
pub fn proxied(helper: &Url, target: &Url, headers: &StreamProxyHeaders) -> (r: Option<Url>)
    ensures
        opt_url(r) == proxied_model(helper@, target@, headers@),
{
    let scheme = target.scheme();
    let authority = target.authority();
    let origin = proxy_origin(scheme.as_str(), authority.as_str());
    let query = proxy_query(origin.as_str(), headers);
    let target_path = target.path();
    let path = proxy_path(query.as_str(), target_path.as_str());
    match helper.with_path(path.as_str()) {
        Some(placed) => {
            let target_query = target.query();
            match &target_query {
                Some(q) => placed.with_query(Some(q.as_str())),
                None => placed.with_query(None),
            }
        },
        None => None,
    }
}

impl Stream<StreamSource> {
    /// The name of the file that an FTP location points at.
    pub fn ftp_filename(url: &Url) -> (r: Result<String, ConvertError>)
        ensures
            match ftp_filename_model(url@) {
                Ok(name) => r is Ok && r->Ok_0@ == name,
                Err(e) => r is Err && r->Err_0 == e,
            },
    {
        filename_of(url.last_path_segment())
    }

    /// Routes a URL with the scheme `ftp` or `ftps` through the helper and
    /// leaves any other URL as it is.
    pub fn ftp_url_handler(streaming_server_url: Option<&Url>, url: Url) -> (r: Result<
        Url,
        ConvertError,
    >)
        ensures
            url_result_is(r, ftp_model(opt_url_ref(streaming_server_url), url@)),
    {
        let scheme = url.scheme();
        if !ftp_scheme(scheme.as_str()) {
            return Ok(url);
        }
        let helper = match streaming_server_url {
            Some(h) => h,
            None => {
                return Err(ConvertError::HelperUnavailable(SourceKind::Ftp));
            },
        };
        let filename = match Self::ftp_filename(&url) {
            Ok(name) => name,
            Err(e) => {
                return Err(e);
            },
        };
        let endpoint = match helper.join(SourceKind::Ftp.endpoint_str()) {
            Some(base) => base.join(filename.as_str()),
            None => None,
        };
        let payload = FtpStreamBody { ftp_url: url };
        let body = payload.to_json();
        with_payload(endpoint, body.as_str())
    }

    /// Rewrites each of `urls`, stopping at the first that fails.
    fn rewrite_urls(helper: Option<&Url>, urls: &Vec<Url>) -> (r: Result<Vec<Url>, ConvertError>)
        ensures
            match rewrite_urls_model(opt_url_ref(helper), url_views(urls@)) {
                Ok(rewritten) => r is Ok && url_views(r->Ok_0@) == rewritten,
                Err(e) => r is Err && r->Err_0 == e,
            },
    {
        let mut out: Vec<Url> = Vec::new();
        let mut i: usize = 0;
        assert(url_views(out@) =~= Seq::empty());
        while i < urls.len()
            invariant
                i <= urls.len(),
                rewrite_urls_model(opt_url_ref(helper), url_views(urls@).subrange(0, i as int))
                    == Ok::<Seq<Seq<char>>, ConvertError>(url_views(out@)),
            decreases urls.len() - i,
        {
            proof {
                let next = url_views(urls@).subrange(0, i + 1);
                assert(next.drop_last() =~= url_views(urls@).subrange(0, i as int));
                assert(next.last() == urls@[i as int]@);
            }
            let ghost before = url_views(out@);
            match Self::ftp_url_handler(helper, urls[i].clone()) {
                Ok(url) => {
                    out.push(url);
                    assert(url_views(out@) =~= before.push(url@));
                },
                Err(e) => {
                    proof {
                        lemma_rewrite_urls_fails(
                            opt_url_ref(helper),
                            url_views(urls@),
                            i as int + 1,
                        );
                    }
                    return Err(e);
                },
            }
            i = i + 1;
        }
        assert(url_views(urls@).subrange(0, i as int) =~= url_views(urls@));
        Ok(out)
    }

    /// Rewrites the URL of each of `parts`, stopping at the first that fails.
    fn rewrite_parts(helper: Option<&Url>, parts: &Vec<ArchiveUrl>) -> (r: Result<
        Vec<ArchiveUrl>,
        ConvertError,
    >)
        ensures
            match rewrite_parts_model(opt_url_ref(helper), part_views(parts@)) {
                Ok(rewritten) => r is Ok && part_views(r->Ok_0@) == rewritten,
                Err(e) => r is Err && r->Err_0 == e,
            },
    {
        let mut out: Vec<ArchiveUrl> = Vec::new();
        let mut i: usize = 0;
        assert(part_views(out@) =~= Seq::empty());
        while i < parts.len()
            invariant
                i <= parts.len(),
                rewrite_parts_model(opt_url_ref(helper), part_views(parts@).subrange(0, i as int))
                    == Ok::<Seq<(Seq<char>, Option<u64>)>, ConvertError>(part_views(out@)),
            decreases parts.len() - i,
        {
            proof {
                let next = part_views(parts@).subrange(0, i + 1);
                assert(next.drop_last() =~= part_views(parts@).subrange(0, i as int));
                assert(next.last() == parts@[i as int]@);
            }
            let ghost before = part_views(out@);
            match Self::ftp_url_handler(helper, parts[i].url.clone()) {
                Ok(url) => {
                    out.push(ArchiveUrl { url, bytes: parts[i].bytes });
                    assert(part_views(out@) =~= before.push((url@, parts@[i as int].bytes)));
                },
                Err(e) => {
                    proof {
                        lemma_rewrite_parts_fails(
                            opt_url_ref(helper),
                            part_views(parts@),
                            i as int + 1,
                        );
                    }
                    return Err(e);
                },
            }
            i = i + 1;
        }
        assert(part_views(parts@).subrange(0, i as int) =~= part_views(parts@));
        Ok(out)
    }

    /// The URL that plays an archive of the given kind.
    pub fn convert_archive(
        streaming_server_url: Option<&Url>,
        kind: SourceKind,
        urls: &Vec<ArchiveUrl>,
        file_idx: Option<u16>,
        file_must_include: &Vec<String>,
    ) -> (r: Result<Url, ConvertError>)
        ensures
            url_result_is(
                r,
                archive_model(
                    opt_url_ref(streaming_server_url),
                    kind,
                    part_views(urls@),
                    file_idx,
                    texts(file_must_include@),
                ),
            ),
    {
        let helper = match streaming_server_url {
            Some(h) => h,
            None => {
                return Err(ConvertError::HelperUnavailable(kind));
            },
        };
        if urls.len() == 0 {
            return Err(ConvertError::EmptyPartList(kind));
        }
        let parts = match Self::rewrite_parts(streaming_server_url, urls) {
            Ok(p) => p,
            Err(e) => {
                return Err(e);
            },
        };
        let payload = ArchiveStreamBody {
            urls: parts,
            options: ArchiveStreamOptions {
                file_idx,
                file_must_include: clone_texts(file_must_include),
            },
        };
        let body = payload.to_json();
        with_payload(helper.join(kind.endpoint_str()), body.as_str())
    }

    /// The URL that plays an NZB source.
    pub fn convert_nzb(streaming_server_url: Option<&Url>, nzb_url: &Url, servers: &Vec<Url>) -> (r:
        Result<Url, ConvertError>)
        ensures
            url_result_is(
                r,
                nzb_model(opt_url_ref(streaming_server_url), nzb_url@, url_views(servers@)),
            ),
    {
        let helper = match streaming_server_url {
            Some(h) => h,
            None => {
                return Err(ConvertError::HelperUnavailable(SourceKind::Nzb));
            },
        };
        if servers.len() == 0 {
            return Err(ConvertError::EmptyPartList(SourceKind::Nzb));
        }
        let rewritten = match Self::rewrite_urls(streaming_server_url, servers) {
            Ok(s) => s,
            Err(e) => {
                return Err(e);
            },
        };
        let file = match Self::ftp_url_handler(streaming_server_url, nzb_url.clone()) {
            Ok(f) => f,
            Err(e) => {
                return Err(e);
            },
        };
        let payload = NzbStreamBody { nzb_url: file, servers: rewritten };
        let body = payload.to_json();
        with_payload(helper.join(SourceKind::Nzb.endpoint_str()), body.as_str())
    }

    /// What becomes of a direct link.
    pub fn convert_link(
        streaming_server_url: Option<&Url>,
        url: &Url,
        proxy_headers: &Option<StreamProxyHeaders>,
    ) -> (r: Result<Url, ConvertError>)
        ensures
            url_result_is(
                r,
                link_model(opt_url_ref(streaming_server_url), url@, opt_headers(*proxy_headers)),
            ),
    {
        if url.has_scheme("magnet") {
            return Ok(url.clone());
        }
        let resolved = match Self::ftp_url_handler(streaming_server_url, url.clone()) {
            Ok(u) => u,
            Err(e) => {
                return Err(e);
            },
        };
        match (proxy_headers, streaming_server_url) {
            (Some(headers), Some(helper)) => match proxied(helper, &resolved, headers) {
                Some(url) => Ok(url),
                None => Err(ConvertError::InvalidHelperUrl),
            },
            _ => Ok(resolved),
        }
    }

    /// The streaming URL of a YouTube video.
    pub fn convert_youtube(streaming_server_url: Option<&Url>, yt_id: &str) -> (r: Result<
        Url,
        ConvertError,
    >)
        ensures
            url_result_is(r, youtube_model(opt_url_ref(streaming_server_url), yt_id@)),
    {
        let helper = match streaming_server_url {
            Some(h) => h,
            None => {
                return Err(ConvertError::HelperUnavailable(SourceKind::YouTube));
            },
        };
        let base = match helper.push_path_segment(SourceKind::YouTube.endpoint_str()) {
            Some(b) => b,
            None => {
                return Err(ConvertError::InvalidHelperUrl);
            },
        };
        let encoded = encode_uri_component(yt_id);
        match base.push_path_segment(encoded.as_str()) {
            Some(url) => Ok(url),
            None => Err(ConvertError::InvalidHelperUrl),
        }
    }

    /// The streaming URL of a torrent.
    pub fn convert_torrent(
        streaming_server_url: Option<&Url>,
        info_hash: &[u8; 20],
        file_idx: Option<u16>,
        announce: &Vec<String>,
        file_must_include: &Vec<String>,
    ) -> (r: Result<Url, ConvertError>)
        ensures
            url_result_is(
                r,
                torrent_model(
                    opt_url_ref(streaming_server_url),
                    info_hash@,
                    file_idx,
                    texts(announce@),
                    texts(file_must_include@),
                ),
            ),
    {
        let helper = match streaming_server_url {
            Some(h) => h,
            None => {
                return Err(ConvertError::HelperUnavailable(SourceKind::Torrent));
            },
        };
        let hash = hex_encode(info_hash.as_slice());
        let index = file_index_segment(file_idx);
        let path = match helper.push_path_segment(hash.as_str()) {
            Some(base) => base.push_path_segment(index.as_str()),
            None => None,
        };
        let path = match path {
            Some(p) => p,
            None => {
                return Err(ConvertError::InvalidHelperUrl);
            },
        };
        let trackers = tracker_values_of(announce);
        let names = non_empty_of(file_must_include);
        let with_trackers = append_pairs(path.open_query(), "tr", &trackers);
        match append_pairs(with_trackers, "f", &names) {
            Some(url) => Ok(url),
            None => Err(ConvertError::InvalidHelperUrl),
        }
    }

    /// Converts the source of a stream into one that a player can consume.
    pub fn convert_source(
        source: &StreamSource,
        proxy_headers: &Option<StreamProxyHeaders>,
        streaming_server_url: Option<&Url>,
    ) -> (r: Result<ConvertedStreamSource, ConvertError>)
        ensures
            match convert_model(
                source@,
                opt_headers(*proxy_headers),
                opt_url_ref(streaming_server_url),
            ) {
                Ok(converted) => r is Ok && r->Ok_0@ == converted,
                Err(e) => r is Err && r->Err_0 == e,
            },
    {
        match source {
            StreamSource::Url { url } => {
                match Self::convert_link(streaming_server_url, url, proxy_headers) {
                    Ok(url) => Ok(ConvertedStreamSource::Url { url }),
                    Err(e) => Err(e),
                }
            },
            StreamSource::YouTube { yt_id } => {
                match Self::convert_youtube(streaming_server_url, yt_id.as_str()) {
                    Ok(url) => Ok(ConvertedStreamSource::YouTube { url, yt_id: yt_id.clone() }),
                    Err(e) => Err(e),
                }
            },
            StreamSource::Rar { urls, file_idx, file_must_include } => {
                match Self::convert_archive(
                    streaming_server_url,
                    SourceKind::Rar,
                    urls,
                    *file_idx,
                    file_must_include,
                ) {
                    Ok(url) => Ok(ConvertedStreamSource::Url { url }),
                    Err(e) => Err(e),
                }
            },
            StreamSource::Zip { urls, file_idx, file_must_include } => {
                match Self::convert_archive(
                    streaming_server_url,
                    SourceKind::Zip,
                    urls,
                    *file_idx,
                    file_must_include,
                ) {
                    Ok(url) => Ok(ConvertedStreamSource::Url { url }),
                    Err(e) => Err(e),
                }
            },
            StreamSource::Zip7 { urls, file_idx, file_must_include } => {
                match Self::convert_archive(
                    streaming_server_url,
                    SourceKind::Zip7,
                    urls,
                    *file_idx,
                    file_must_include,
                ) {
                    Ok(url) => Ok(ConvertedStreamSource::Url { url }),
                    Err(e) => Err(e),
                }
            },
            StreamSource::Tgz { urls, file_idx, file_must_include } => {
                match Self::convert_archive(
                    streaming_server_url,
                    SourceKind::Tgz,
                    urls,
                    *file_idx,
                    file_must_include,
                ) {
                    Ok(url) => Ok(ConvertedStreamSource::Url { url }),
                    Err(e) => Err(e),
                }
            },
            StreamSource::Tar { urls, file_idx, file_must_include } => {
                match Self::convert_archive(
                    streaming_server_url,
                    SourceKind::Tar,
                    urls,
                    *file_idx,
                    file_must_include,
                ) {
                    Ok(url) => Ok(ConvertedStreamSource::Url { url }),
                    Err(e) => Err(e),
                }
            },
            StreamSource::Nzb { nzb_url, servers } => {
                match Self::convert_nzb(streaming_server_url, nzb_url, servers) {
                    Ok(url) => Ok(ConvertedStreamSource::Url { url }),
                    Err(e) => Err(e),
                }
            },
            StreamSource::Torrent { info_hash, file_idx, announce, file_must_include } => {
                match Self::convert_torrent(
                    streaming_server_url,
                    info_hash,
                    *file_idx,
                    announce,
                    file_must_include,
                ) {
                    Ok(url) => Ok(
                        ConvertedStreamSource::Torrent {
                            url,
                            info_hash: InfoHash::new(*info_hash),
                            file_idx: *file_idx,
                            announce: clone_texts(announce),
                            file_must_include: clone_texts(file_must_include),
                        },
                    ),
                    Err(e) => Err(e),
                }
            },
            StreamSource::PlayerFrame { player_frame_url } => Ok(
                ConvertedStreamSource::PlayerFrame { player_frame_url: player_frame_url.clone() },
            ),
            StreamSource::External { external_url, android_tv_url, tizen_url, webos_url } => Ok(
                ConvertedStreamSource::External {
                    external_url: clone_opt_url(external_url),
                    android_tv_url: clone_opt_url(android_tv_url),
                    tizen_url: clone_opt_text(tizen_url),
                    webos_url: clone_opt_text(webos_url),
                },
            ),
        }
    }

    /// Converts the stream into one that a player can consume: archives, NZB
    /// sources and FTP locations become URLs of the streaming helper, YouTube
    /// videos and torrents get their streaming URL, and everything besides the
    /// source stays as it is. Either the whole source is converted or an error
    /// says why it could not be.
    pub fn convert(&self, streaming_server_url: Option<&Url>) -> (r: Result<
        Stream<ConvertedStreamSource>,
        ConvertError,
    >)
        ensures
            match convert_model(
                self.source@,
                opt_headers(self.behavior_hints.proxy_headers),
                opt_url_ref(streaming_server_url),
            ) {
                Ok(converted) => r is Ok && r->Ok_0.source@ == converted
                    && r->Ok_0.presentation() == self.presentation(),
                Err(e) => r is Err && r->Err_0 == e,
            },
    {
        match Self::convert_source(
            &self.source,
            &self.behavior_hints.proxy_headers,
            streaming_server_url,
        ) {
            Ok(converted) => Ok(self.to_converted(converted)),
            Err(e) => Err(e),
        }
    }
}

/// Once a prefix of a list of URLs fails, the whole list fails in the same
/// way.
proof fn lemma_rewrite_urls_fails(helper: Option<Seq<char>>, urls: Seq<Seq<char>>, end: int)
    requires
        0 <= end <= urls.len(),
        rewrite_urls_model(helper, urls.subrange(0, end)) is Err,
    ensures
        rewrite_urls_model(helper, urls) == rewrite_urls_model(helper, urls.subrange(0, end)),
    decreases urls.len() - end,
{
    if end < urls.len() {
        let next = urls.subrange(0, end + 1);
        assert(next.drop_last() =~= urls.subrange(0, end));
        lemma_rewrite_urls_fails(helper, urls, end + 1);
    } else {
        assert(urls.subrange(0, end) =~= urls);
    }
}

/// Once a prefix of a list of parts fails, the whole list fails in the same
/// way.
proof fn lemma_rewrite_parts_fails(
    helper: Option<Seq<char>>,
    parts: Seq<(Seq<char>, Option<u64>)>,
    end: int,
)
    requires
        0 <= end <= parts.len(),
        rewrite_parts_model(helper, parts.subrange(0, end)) is Err,
    ensures
        rewrite_parts_model(helper, parts) == rewrite_parts_model(helper, parts.subrange(0, end)),
    decreases parts.len() - end,
{
    if end < parts.len() {
        let next = parts.subrange(0, end + 1);
        assert(next.drop_last() =~= parts.subrange(0, end));
        lemma_rewrite_parts_fails(helper, parts, end + 1);
    } else {
        assert(parts.subrange(0, end) =~= parts);
    }
}

/// The request for an archive that has parts, with a helper running: where
/// the conversion succeeds, the parts were rewritten and the body was packed,
/// the URL is the endpoint of the archive's kind with the packed body under
/// `lz`, and unpacking what stands under `lz` gives the body back, character
/// for character.
pub proof fn lemma_archive_payload_round_trip(
    helper: Seq<char>,
    kind: SourceKind,
    urls: Seq<(Seq<char>, Option<u64>)>,
    file_idx: Option<u16>,
    file_must_include: Seq<Seq<char>>,
)
    requires
        urls.len() > 0,
    ensures
        archive_model(Some(helper), kind, urls, file_idx, file_must_include) is Ok ==> {
            let parts = rewrite_parts_model(Some(helper), urls);
            let body = archive_body_text(parts->Ok_0, file_idx, file_must_include);
            let packed = pack_model(body);
            let endpoint = join_model(helper, kind.endpoint());
            &&& parts is Ok
            &&& packed is Some
            &&& endpoint is Some
            &&& unpack_model(packed->Some_0) == Some(body)
            &&& Some(archive_model(Some(helper), kind, urls, file_idx, file_must_include)->Ok_0)
                == append_pair_model(endpoint->Some_0, "lz"@, packed->Some_0)
        },
{
}

/// Without a helper, an archive, an NZB source, a YouTube video and a
/// torrent are refused because the helper is missing, whatever they hold.
pub proof fn lemma_helper_needed(source: SourceView, headers: Option<ProxyHeadersView>)
    requires
        source is Archive || source is Nzb || source is YouTube || source is Torrent,
    ensures
        convert_model(source, headers, None) is Err,
        convert_model(source, headers, None)->Err_0 is HelperUnavailable,
        source is Archive ==> convert_model(source, headers, None)->Err_0
            == ConvertError::HelperUnavailable(source->Archive_kind),
        source is Nzb ==> convert_model(source, headers, None)->Err_0
            == ConvertError::HelperUnavailable(SourceKind::Nzb),
        source is YouTube ==> convert_model(source, headers, None)->Err_0
            == ConvertError::HelperUnavailable(SourceKind::YouTube),
        source is Torrent ==> convert_model(source, headers, None)->Err_0
            == ConvertError::HelperUnavailable(SourceKind::Torrent),
{
}

/// An archive without parts is refused for its empty list of parts even
/// when the helper runs.
pub proof fn lemma_empty_archive_refused(
    helper: Seq<char>,
    headers: Option<ProxyHeadersView>,
    kind: SourceKind,
    file_idx: Option<u16>,
    file_must_include: Seq<Seq<char>>,
)
    ensures
        convert_model(
            SourceView::Archive { kind, urls: Seq::empty(), file_idx, file_must_include },
            headers,
            Some(helper),
        ) == Err::<ConvertedView, ConvertError>(ConvertError::EmptyPartList(kind)),
{
}

/// A magnet link, a player frame and an external source are converted to
/// themselves, whether the helper runs or not.
pub proof fn lemma_kept_as_it_is(
    source: SourceView,
    headers: Option<ProxyHeadersView>,
    helper: Option<Seq<char>>,
)
    ensures
        source is Url && url_scheme(source->Url_url) == "magnet"@ ==> convert_model(
            source,
            headers,
            helper,
        ) == Ok::<ConvertedView, ConvertError>(ConvertedView::Url { url: source->Url_url }),
        source is PlayerFrame ==> convert_model(source, headers, helper) == Ok::<
            ConvertedView,
            ConvertError,
        >(ConvertedView::PlayerFrame { player_frame_url: source->PlayerFrame_player_frame_url }),
        source is External ==> convert_model(source, headers, helper) == Ok::<
            ConvertedView,
            ConvertError,
        >(
            ConvertedView::External {
                external_url: source->External_external_url,
                android_tv_url: source->External_android_tv_url,
                tizen_url: source->External_tizen_url,
                webos_url: source->External_webos_url,
            },
        ),
{
}

/// Without a helper, a direct link that does not point at an FTP server is
/// converted to itself, and one that does is refused.
pub proof fn lemma_link_without_helper(url: Seq<char>, headers: Option<ProxyHeadersView>)
    ensures
        !is_ftp(url) ==> convert_model(SourceView::Url { url }, headers, None) == Ok::<
            ConvertedView,
            ConvertError,
        >(ConvertedView::Url { url }),
        is_ftp(url) && url_scheme(url) != "magnet"@ ==> convert_model(
            SourceView::Url { url },
            headers,
            None,
        ) == Err::<ConvertedView, ConvertError>(
            ConvertError::HelperUnavailable(SourceKind::Ftp),
        ),
{
}

} // verus!
