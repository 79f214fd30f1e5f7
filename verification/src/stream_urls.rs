//! The URLs that a user interface needs for a converted stream: a magnet
//! link, a link to download from, a link to play, and the playing link
//! wrapped as a playlist.

use vstd::prelude::*;
use vstd::string::*;
use vstd::utf8::*;

use crate::base16::hex_text;
use crate::conversion::{plain_tracker, strip_tracker};
use crate::converted_source::{clone_opt_url, ConvertedStreamSource, ConvertedView};
use crate::magnet::{magnet_text, renormalize, renormalize_model, render};
use crate::percent::{encode_uri_component, lemma_uri_component_no_colon, uri_component};
use crate::stream::Stream;
use crate::stream_text::{base64_encode, base64_text};
use crate::text::{opt_text, texts};
use crate::web_url::{
    append_pair_model,
    byte_len,
    clear_pairs_model,
    opt_url,
    parse_model,
    url_scheme,
    Url,
};

verus! {

/// Whether the URL is a magnet link.
pub open spec fn is_magnet(url: Seq<char>) -> bool {
    url_scheme(url) == "magnet"@
}

/// The URL to play a converted source from: the URL of a direct link that is
/// no magnet link, of a torrent and of a YouTube video; nothing else can be
/// played directly.
pub open spec fn streaming_url_model(source: ConvertedView) -> Option<Seq<char>> {
    match source {
        ConvertedView::Url { url } => if is_magnet(url) {
            None
        } else {
            Some(url)
        },
        ConvertedView::Torrent { url, .. } => Some(url),
        ConvertedView::YouTube { url, .. } => Some(url),
        _ => None,
    }
}

/// A tracker as it stands in a magnet link: without the prefixes that only
/// the helper reads, and percent-encoded.
pub open spec fn tracker_model(tracker: Seq<char>) -> Seq<char> {
    uri_component(plain_tracker(tracker))
}

/// The trackers of a magnet link, for the trackers that a torrent announces
/// to.
pub open spec fn trackers_model(announce: Seq<Seq<char>>) -> Seq<Seq<char>> {
    Seq::new(announce.len(), |i: int| tracker_model(announce[i]))
}

/// A magnet link, taken apart and written again, as a URL.
pub open spec fn magnet_link_model(url: Seq<char>) -> Option<Seq<char>> {
    match renormalize_model(url) {
        Some(text) => parse_model(text),
        None => None,
    }
}

/// The text of the magnet link of a torrent: its display name, its info hash
/// as a `btih` topic, and its trackers.
pub open spec fn torrent_magnet_text(
    name: Option<Seq<char>>,
    info_hash: Seq<u8>,
    announce: Seq<Seq<char>>,
) -> Seq<char> {
    magnet_text(name, "btih"@, hex_text(info_hash), trackers_model(announce))
}

/// The magnet link of a converted source: that of a direct link that is one,
/// and the one made for a torrent.
pub open spec fn magnet_url_model(source: ConvertedView, name: Option<Seq<char>>) -> Option<
    Seq<char>,
> {
    match source {
        ConvertedView::Url { url } => if is_magnet(url) {
            magnet_link_model(url)
        } else {
            None
        },
        ConvertedView::Torrent { info_hash, announce, .. } => parse_model(
            torrent_magnet_text(name, info_hash, announce),
        ),
        _ => None,
    }
}

/// The streaming URL of a torrent with the query `external=1&download=1` in
/// place of its own.
pub open spec fn torrent_download_model(url: Seq<char>) -> Option<Seq<char>> {
    match clear_pairs_model(url) {
        Some(cleared) => match append_pair_model(cleared, "external"@, "1"@) {
            Some(external) => append_pair_model(external, "download"@, "1"@),
            None => None,
        },
        None => None,
    }
}

/// The page of a YouTube video.
pub open spec fn youtube_page_text(yt_id: Seq<char>) -> Seq<char> {
    "https://youtube.com/watch?v="@ + uri_component(yt_id)
}

/// The URL to download a converted source from. `helper` says whether the
/// streaming helper runs.
pub open spec fn download_url_model(source: ConvertedView, helper: bool) -> Option<Seq<char>> {
    match source {
        ConvertedView::Url { url } => if is_magnet(url) {
            magnet_link_model(url)
        } else {
            Some(url)
        },
        ConvertedView::Torrent { url, .. } => if helper {
            torrent_download_model(url)
        } else {
            None
        },
        ConvertedView::YouTube { yt_id, .. } => parse_model(youtube_page_text(yt_id)),
        ConvertedView::External { external_url, .. } => external_url,
        ConvertedView::PlayerFrame { player_frame_url } => Some(player_frame_url),
    }
}

/// The lines of a playlist that plays one URL.
pub open spec fn playlist_text(url: Seq<char>) -> Seq<char> {
    "#EXTM3U\n#EXTINF:0\n"@ + url
}

/// A `data:` URI for content that is given in base 64.
pub open spec fn data_uri_text(encoded: Seq<char>) -> Seq<char> {
    "data:application/octet-stream;charset=utf-8;base64,"@ + encoded
}

/// A playlist that plays one URL, as a `data:` URI.
pub open spec fn playlist_model(url: Seq<char>) -> Seq<char> {
    data_uri_text(base64_text(encode_utf8(playlist_text(url))))
}

/// The playlist for the streaming URL, if there is one.
pub open spec fn playlist_of(streaming_url: Option<Seq<char>>) -> Option<Seq<char>> {
    match streaming_url {
        Some(url) => Some(playlist_model(url)),
        None => None,
    }
}

/// The URLs that were derived from a converted stream, and the stream they
/// were derived from: a caller compares that stream with the one it holds to
/// see whether the URLs are still the right ones.
#[derive(Debug, Clone, PartialEq, Eq)]
pub struct StreamUrls {
    pub magnet_url: Option<Url>,
    pub download_url: Option<Url>,
    pub streaming_url: Option<Url>,
    pub m3u_data_uri: Option<String>,
    /// The stream for which the URLs were made.
    pub stream: Stream<ConvertedStreamSource>,
}

impl StreamUrls {
    /// Derives the URLs of a converted stream.
    pub fn new(converted: Stream<ConvertedStreamSource>, streaming_server_url: Option<&Url>) -> (r:
        Self)
        ensures
            r.stream == converted,
            opt_url(r.streaming_url) == streaming_url_model(converted.source@),
            opt_url(r.download_url) == download_url_model(
                converted.source@,
                streaming_server_url is Some,
            ),
            opt_url(r.magnet_url) == magnet_url_model(converted.source@, opt_text(converted.name)),
            opt_text(r.m3u_data_uri) == playlist_of(streaming_url_model(converted.source@)),
            r.streaming_url is Some <==> (converted.source@ is Torrent
                || converted.source@ is YouTube || (converted.source@ is Url && !is_magnet(
                converted.source@->Url_url,
            ))),
            r.m3u_data_uri is Some <==> r.streaming_url is Some,
    {
        let streaming_url = get_streaming_url(&converted);
        let download_url = get_download_url(&converted, streaming_server_url);
        let magnet_url = get_magnet_url(&converted);
        let m3u_data_uri = match &streaming_url {
            Some(url) => Some(get_m3u_data_uri(url)),
            None => None,
        };
        StreamUrls { magnet_url, download_url, streaming_url, m3u_data_uri, stream: converted }
    }
}

/// The trackers of a magnet link, for the trackers that a torrent announces
/// to.
pub fn magnet_trackers(announce: &Vec<String>) -> (r: Vec<String>)
    ensures
        texts(r@) == trackers_model(texts(announce@)),
{
    let mut out: Vec<String> = Vec::new();
    let mut i: usize = 0;
    while i < announce.len()
        invariant
            i <= announce.len(),
            out.len() == i,
            forall|k: int| 0 <= k < i ==> (#[trigger] out@[k])@ == tracker_model(announce@[k]@),
        decreases announce.len() - i,
    {
        out.push(encode_uri_component(strip_tracker(announce[i].as_str())));
        i = i + 1;
    }
    assert(texts(out@) =~= trackers_model(texts(announce@)));
    out
}

/// The magnet link of a converted stream.
pub fn get_magnet_url(converted: &Stream<ConvertedStreamSource>) -> (r: Option<Url>)
    ensures
        opt_url(r) == magnet_url_model(converted.source@, opt_text(converted.name)),
{
    match &converted.source {
        ConvertedStreamSource::Url { url } => {
            if url.has_scheme("magnet") {
                match renormalize(url.as_str()) {
                    Some(text) => Url::parse(text.as_str()),
                    None => None,
                }
            } else {
                None
            }
        },
        ConvertedStreamSource::Torrent { info_hash, announce, .. } => {
            let trackers = magnet_trackers(announce);
            let topic = info_hash.to_string();
            let text = match &converted.name {
                Some(name) => render(Some(name.as_str()), "btih", topic.as_str(), &trackers),
                None => render(None, "btih", topic.as_str(), &trackers),
            };
            Url::parse(text.as_str())
        },
        _ => None,
    }
}

/// A playlist that plays `streaming_url`, as a `data:` URI.
pub fn get_m3u_data_uri(streaming_url: &Url) -> (r: String)
    ensures
        r@ == playlist_model(streaming_url@),
{
    let playlist = playlist_lines(streaming_url.as_str());
    proof {
        reveal_strlit("#EXTM3U\n#EXTINF:0\n");
        lemma_byte_len_concat("#EXTM3U\n#EXTINF:0\n"@, streaming_url@);
        lemma_short_text("#EXTM3U\n#EXTINF:0\n"@);
    }
    let encoded = base64_encode(playlist.as_str().as_bytes());
    data_uri(encoded.as_str())
}

/// The lines of a playlist that plays one URL.
pub fn playlist_lines(url: &str) -> (r: String)
    ensures
        r@ == playlist_text(url@),
{
    let mut playlist = String::from_str("#EXTM3U\n#EXTINF:0\n");
    playlist.append(url);
    playlist
}

/// A `data:` URI for content that is given in base 64.
pub fn data_uri(encoded: &str) -> (r: String)
    ensures
        r@ == data_uri_text(encoded@),
{
    let mut out = String::from_str("data:application/octet-stream;charset=utf-8;base64,");
    out.append(encoded);
    out
}

/// The page of a YouTube video, as text.
pub fn youtube_page(yt_id: &str) -> (r: String)
    ensures
        r@ == youtube_page_text(yt_id@),
{
    let mut page = String::from_str("https://youtube.com/watch?v=");
    let id = encode_uri_component(yt_id);
    page.append(id.as_str());
    page
}

/// The URL to download a converted stream from.
pub fn get_download_url(
    converted: &Stream<ConvertedStreamSource>,
    streaming_server_url: Option<&Url>,
) -> (r: Option<Url>)
    ensures
        opt_url(r) == download_url_model(converted.source@, streaming_server_url is Some),
{
    match &converted.source {
        ConvertedStreamSource::Url { url } => {
            if url.has_scheme("magnet") {
                match renormalize(url.as_str()) {
                    Some(text) => Url::parse(text.as_str()),
                    None => None,
                }
            } else {
                Some(url.clone())
            }
        },
        ConvertedStreamSource::Torrent { url, .. } => {
            // All that matters of the helper is that it runs.
            match streaming_server_url {
                Some(_) => match url.clear_query_pairs() {
                    Some(cleared) => match cleared.append_query_pair("external", "1") {
                        Some(external) => external.append_query_pair("download", "1"),
                        None => None,
                    },
                    None => None,
                },
                None => None,
            }
        },
        ConvertedStreamSource::YouTube { yt_id, .. } => {
            let page = youtube_page(yt_id.as_str());
            Url::parse(page.as_str())
        },
        ConvertedStreamSource::External { external_url, .. } => clone_opt_url(external_url),
        ConvertedStreamSource::PlayerFrame { player_frame_url } => Some(player_frame_url.clone()),
    }
}

/// The URL to play a converted stream from.
pub fn get_streaming_url(converted: &Stream<ConvertedStreamSource>) -> (r: Option<Url>)
    ensures
        opt_url(r) == streaming_url_model(converted.source@),
{
    match &converted.source {
        ConvertedStreamSource::Url { url } => {
            if url.has_scheme("magnet") {
                None
            } else {
                Some(url.clone())
            }
        },
        ConvertedStreamSource::Torrent { url, .. } => Some(url.clone()),
        ConvertedStreamSource::YouTube { url, .. } => Some(url.clone()),
        _ => None,
    }
}

/// The bytes of two texts written one after the other are the bytes of the
/// first followed by those of the second.
proof fn lemma_byte_len_concat(a: Seq<char>, b: Seq<char>)
    ensures
        byte_len(a + b) == byte_len(a) + byte_len(b),
    decreases a.len(),
{
    if a.len() == 0 {
        assert(a + b =~= b);
    } else {
        assert((a + b).drop_first() =~= a.drop_first() + b);
        lemma_byte_len_concat(a.drop_first(), b);
    }
}

/// A text takes at most four bytes for each character.
proof fn lemma_short_text(a: Seq<char>)
    ensures
        byte_len(a) <= 4 * a.len(),
    decreases a.len(),
{
    if a.len() > 0 {
        lemma_short_text(a.drop_first());
    }
}

/// A direct link that is no magnet link, a torrent and a YouTube video have
/// a streaming URL, and no other converted source has one.
pub proof fn lemma_streaming_url_present(source: ConvertedView)
    ensures
        streaming_url_model(source) is Some <==> (source is Torrent || source is YouTube || (
        source is Url && !is_magnet(source->Url_url))),
{
}

/// No tracker of the magnet link that is made for a torrent begins with
/// `tracker:` or with `dht:`: percent-encoding leaves no colon in it.
pub proof fn lemma_trackers_without_prefix(announce: Seq<Seq<char>>)
    ensures
        forall|i: int|
            0 <= i < announce.len() ==> !(#[trigger] trackers_model(announce)[i]).contains(':')
                && !"tracker:"@.is_prefix_of(trackers_model(announce)[i]) && !"dht:"@.is_prefix_of(
                trackers_model(announce)[i],
            ),
{
    reveal_strlit("tracker:");
    reveal_strlit("dht:");
    assert forall|i: int| 0 <= i < announce.len() implies !(#[trigger] trackers_model(
        announce,
    )[i]).contains(':') && !"tracker:"@.is_prefix_of(trackers_model(announce)[i])
        && !"dht:"@.is_prefix_of(trackers_model(announce)[i]) by {
        let tracker = trackers_model(announce)[i];
        lemma_uri_component_no_colon(plain_tracker(announce[i]));
        if "tracker:"@.is_prefix_of(tracker) {
            assert(tracker[7] == "tracker:"@[7]);
            assert(tracker.contains(':'));
        }
        if "dht:"@.is_prefix_of(tracker) {
            assert(tracker[3] == "dht:"@[3]);
            assert(tracker.contains(':'));
        }
    }
}

} // verus!
