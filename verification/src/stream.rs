//! A stream as an addon describes it: where the media lives, how it is shown
//! and how a player should treat it.

use vstd::prelude::*;
use vstd::string::*;

use crate::converted_source::{
    same_opt_u16,
    same_opt_url,
    ConvertedStreamSource,
    StreamSourceTrait,
};
use crate::error::{ConvertError, SourceKind};
use crate::ordered_map::{Entries, OrderedMap};
use crate::text::{
    clone_opt_text,
    clone_texts,
    field,
    nth_field,
    opt_text,
    same_opt_text,
    same_texts,
    str_eq,
    strip_prefix,
    texts,
};
use crate::web_url::{opt_url, Url};

verus! {

/// A subtitle track that comes with a stream.
#[derive(Debug, PartialEq, Eq)]
pub struct Subtitles {
    pub id: String,
    pub lang: String,
    pub url: Url,
}

/// What a subtitle track holds.
pub struct SubtitlesView {
    pub id: Seq<char>,
    pub lang: Seq<char>,
    pub url: Seq<char>,
}

impl View for Subtitles {
    type V = SubtitlesView;

    open spec fn view(&self) -> SubtitlesView {
        SubtitlesView { id: self.id@, lang: self.lang@, url: self.url@ }
    }
}

impl Clone for Subtitles {
    fn clone(&self) -> (r: Self)
        ensures
            r@ == self@,
    {
        Subtitles { id: self.id.clone(), lang: self.lang.clone(), url: self.url.clone() }
    }
}

/// The views of a list of subtitle tracks, in order.
pub open spec fn subtitle_views(v: Seq<Subtitles>) -> Seq<SubtitlesView> {
    Seq::new(v.len(), |i: int| v[i]@)
}

/// A copy of a list of subtitle tracks.
pub fn clone_subtitles(v: &Vec<Subtitles>) -> (r: Vec<Subtitles>)
    ensures
        subtitle_views(r@) == subtitle_views(v@),
{
    let mut out: Vec<Subtitles> = Vec::new();
    let mut i: usize = 0;
    while i < v.len()
        invariant
            i <= v.len(),
            out.len() == i,
            forall|k: int| 0 <= k < i ==> (#[trigger] out@[k])@ == v@[k]@,
        decreases v.len() - i,
    {
        out.push(v[i].clone());
        i = i + 1;
    }
    assert(subtitle_views(out@) =~= subtitle_views(v@));
    out
}

/// One part of an archive: where it is, and its size in bytes if that is
/// known.
#[derive(Debug, PartialEq, Eq)]
pub struct ArchiveUrl {
    pub url: Url,
    pub bytes: Option<u64>,
}

impl View for ArchiveUrl {
    type V = (Seq<char>, Option<u64>);

    open spec fn view(&self) -> (Seq<char>, Option<u64>) {
        (self.url@, self.bytes)
    }
}

impl Clone for ArchiveUrl {
    fn clone(&self) -> (r: Self)
        ensures
            r@ == self@,
    {
        ArchiveUrl { url: self.url.clone(), bytes: self.bytes }
    }
}

impl ArchiveUrl {
    /// Two parts are the same when they name the same URL and size.
    pub fn same(&self, other: &ArchiveUrl) -> (b: bool)
        ensures
            b == (self@ == other@),
    {
        let sizes = match (self.bytes, other.bytes) {
            (Some(x), Some(y)) => x == y,
            (None, None) => true,
            _ => false,
        };
        sizes && self.url.same(&other.url)
    }
}

/// The short form of an archive part: the URL, then the size if there is one.
#[derive(Debug, Clone, PartialEq, Eq)]
pub struct ArchiveUrlShort(pub Url, pub Option<u64>);

impl From<ArchiveUrlShort> for ArchiveUrl {
    fn from(value: ArchiveUrlShort) -> (r: Self) {
        ArchiveUrl { url: value.0, bytes: value.1 }
    }
}

impl vstd::std_specs::convert::FromSpecImpl<ArchiveUrlShort> for ArchiveUrl {
    open spec fn obeys_from_spec() -> bool {
        true
    }

    open spec fn from_spec(value: ArchiveUrlShort) -> Self {
        ArchiveUrl { url: value.0, bytes: value.1 }
    }
}

impl From<ArchiveUrl> for ArchiveUrlShort {
    fn from(value: ArchiveUrl) -> (r: Self) {
        ArchiveUrlShort(value.url, value.bytes)
    }
}

impl vstd::std_specs::convert::FromSpecImpl<ArchiveUrl> for ArchiveUrlShort {
    open spec fn obeys_from_spec() -> bool {
        true
    }

    open spec fn from_spec(value: ArchiveUrl) -> Self {
        ArchiveUrlShort(value.url, value.bytes)
    }
}

/// The views of a list of archive parts, in order.
pub open spec fn part_views(v: Seq<ArchiveUrl>) -> Seq<(Seq<char>, Option<u64>)> {
    Seq::new(v.len(), |i: int| v[i]@)
}

/// The views of a list of URLs, in order.
pub open spec fn url_views(v: Seq<Url>) -> Seq<Seq<char>> {
    Seq::new(v.len(), |i: int| v[i]@)
}

/// Whether two lists hold the same archive parts in the same order.
pub fn same_parts(a: &Vec<ArchiveUrl>, b: &Vec<ArchiveUrl>) -> (r: bool)
    ensures
        r == (part_views(a@) == part_views(b@)),
{
    if a.len() != b.len() {
        assert(part_views(a@).len() != part_views(b@).len());
        return false;
    }
    let mut i: usize = 0;
    while i < a.len()
        invariant
            i <= a.len(),
            a.len() == b.len(),
            forall|k: int| 0 <= k < i ==> (#[trigger] a@[k])@ == b@[k]@,
        decreases a.len() - i,
    {
        if !a[i].same(&b[i]) {
            assert(part_views(a@)[i as int] != part_views(b@)[i as int]);
            return false;
        }
        i = i + 1;
    }
    assert(part_views(a@) =~= part_views(b@));
    true
}

/// Whether two lists hold the same URLs in the same order.
pub fn same_urls(a: &Vec<Url>, b: &Vec<Url>) -> (r: bool)
    ensures
        r == (url_views(a@) == url_views(b@)),
{
    if a.len() != b.len() {
        assert(url_views(a@).len() != url_views(b@).len());
        return false;
    }
    let mut i: usize = 0;
    while i < a.len()
        invariant
            i <= a.len(),
            a.len() == b.len(),
            forall|k: int| 0 <= k < i ==> (#[trigger] a@[k])@ == b@[k]@,
        decreases a.len() - i,
    {
        if !a[i].same(&b[i]) {
            assert(url_views(a@)[i as int] != url_views(b@)[i as int]);
            return false;
        }
        i = i + 1;
    }
    assert(url_views(a@) =~= url_views(b@));
    true
}

/// Headers that the helper is to set when it fetches a URL on the player's
/// behalf: those of its request and those of the response it hands on.
#[derive(Debug, PartialEq, Eq)]
pub struct StreamProxyHeaders {
    pub request: OrderedMap,
    pub response: OrderedMap,
}

/// What a pair of header maps holds.
pub struct ProxyHeadersView {
    pub request: Entries,
    pub response: Entries,
}

impl View for StreamProxyHeaders {
    type V = ProxyHeadersView;

    open spec fn view(&self) -> ProxyHeadersView {
        ProxyHeadersView { request: self.request@, response: self.response@ }
    }
}

impl Clone for StreamProxyHeaders {
    fn clone(&self) -> (r: Self)
        ensures
            r@ == self@,
    {
        StreamProxyHeaders { request: self.request.clone(), response: self.response.clone() }
    }
}

impl Default for StreamProxyHeaders {
    fn default() -> (r: Self)
        ensures
            r@ == (ProxyHeadersView { request: Entries::empty(), response: Entries::empty() }),
    {
        StreamProxyHeaders { request: OrderedMap::new(), response: OrderedMap::new() }
    }
}

/// The view of optional proxy headers.
pub open spec fn opt_headers(o: Option<StreamProxyHeaders>) -> Option<ProxyHeadersView> {
    match o {
        Some(h) => Some(h@),
        None => None,
    }
}

/// The view of an optional list of strings.
pub open spec fn opt_texts(o: Option<Vec<String>>) -> Option<Seq<Seq<char>>> {
    match o {
        Some(v) => Some(texts(v@)),
        None => None,
    }
}

/// How a player should treat a stream.
#[derive(Debug, PartialEq, Eq)]
pub struct StreamBehaviorHints {
    pub not_web_ready: bool,
    pub binge_group: Option<String>,
    pub country_whitelist: Option<Vec<String>>,
    pub proxy_headers: Option<StreamProxyHeaders>,
    pub filename: Option<String>,
    pub video_hash: Option<String>,
    pub video_size: Option<u64>,
    /// Hints that this library does not know: each name with the JSON text of
    /// its value. They are carried along and never read.
    pub other: OrderedMap,
}

/// What behaviour hints hold.
pub struct HintsView {
    pub not_web_ready: bool,
    pub binge_group: Option<Seq<char>>,
    pub country_whitelist: Option<Seq<Seq<char>>>,
    pub proxy_headers: Option<ProxyHeadersView>,
    pub filename: Option<Seq<char>>,
    pub video_hash: Option<Seq<char>>,
    pub video_size: Option<u64>,
    pub other: Entries,
}

impl View for StreamBehaviorHints {
    type V = HintsView;

    open spec fn view(&self) -> HintsView {
        HintsView {
            not_web_ready: self.not_web_ready,
            binge_group: opt_text(self.binge_group),
            country_whitelist: opt_texts(self.country_whitelist),
            proxy_headers: opt_headers(self.proxy_headers),
            filename: opt_text(self.filename),
            video_hash: opt_text(self.video_hash),
            video_size: self.video_size,
            other: self.other@,
        }
    }
}

/// The hints of a stream that gives none.
pub open spec fn default_hints() -> HintsView {
    HintsView {
        not_web_ready: false,
        binge_group: None,
        country_whitelist: None,
        proxy_headers: None,
        filename: None,
        video_hash: None,
        video_size: None,
        other: Entries::empty(),
    }
}

impl Default for StreamBehaviorHints {
    fn default() -> (r: Self)
        ensures
            r@ == default_hints(),
    {
        StreamBehaviorHints {
            not_web_ready: false,
            binge_group: None,
            country_whitelist: None,
            proxy_headers: None,
            filename: None,
            video_hash: None,
            video_size: None,
            other: OrderedMap::new(),
        }
    }
}

impl Clone for StreamBehaviorHints {
    fn clone(&self) -> (r: Self)
        ensures
            r@ == self@,
    {
        StreamBehaviorHints {
            not_web_ready: self.not_web_ready,
            binge_group: clone_opt_text(&self.binge_group),
            country_whitelist: match &self.country_whitelist {
                Some(list) => Some(clone_texts(list)),
                None => None,
            },
            proxy_headers: match &self.proxy_headers {
                Some(headers) => Some(headers.clone()),
                None => None,
            },
            filename: clone_opt_text(&self.filename),
            video_hash: clone_opt_text(&self.video_hash),
            video_size: self.video_size,
            other: self.other.clone(),
        }
    }
}

/// Where the media of a stream lives, as an addon gives it. Exactly one of
/// the variants is active.
#[derive(Debug, Clone, PartialEq, Eq)]
pub enum StreamSource {
    /// A direct link. A link with the scheme `magnet` is kept as it is.
    Url { url: Url },
    YouTube { yt_id: String },
    /// Rar archive source
    Rar { urls: Vec<ArchiveUrl>, file_idx: Option<u16>, file_must_include: Vec<String> },
    /// Zip archive source
    Zip { urls: Vec<ArchiveUrl>, file_idx: Option<u16>, file_must_include: Vec<String> },
    /// 7zip archive source
    Zip7 { urls: Vec<ArchiveUrl>, file_idx: Option<u16>, file_must_include: Vec<String> },
    /// Tgz archive source
    Tgz { urls: Vec<ArchiveUrl>, file_idx: Option<u16>, file_must_include: Vec<String> },
    /// Tar archive source
    Tar { urls: Vec<ArchiveUrl>, file_idx: Option<u16>, file_must_include: Vec<String> },
    /// Nzb source
    Nzb { nzb_url: Url, servers: Vec<Url> },
    Torrent {
        info_hash: [u8; 20],
        file_idx: Option<u16>,
        announce: Vec<String>,
        file_must_include: Vec<String>,
    },
    PlayerFrame { player_frame_url: Url },
    External {
        external_url: Option<Url>,
        android_tv_url: Option<Url>,
        tizen_url: Option<String>,
        webos_url: Option<String>,
    },
}

/// What a source holds. The five kinds of archive hold the same things and
/// differ in their kind alone.
pub enum SourceView {
    Url { url: Seq<char> },
    YouTube { yt_id: Seq<char> },
    Archive {
        kind: SourceKind,
        urls: Seq<(Seq<char>, Option<u64>)>,
        file_idx: Option<u16>,
        file_must_include: Seq<Seq<char>>,
    },
    Nzb { nzb_url: Seq<char>, servers: Seq<Seq<char>> },
    Torrent {
        info_hash: Seq<u8>,
        file_idx: Option<u16>,
        announce: Seq<Seq<char>>,
        file_must_include: Seq<Seq<char>>,
    },
    PlayerFrame { player_frame_url: Seq<char> },
    External {
        external_url: Option<Seq<char>>,
        android_tv_url: Option<Seq<char>>,
        tizen_url: Option<Seq<char>>,
        webos_url: Option<Seq<char>>,
    },
}

/// What an archive source of the given kind holds.
pub open spec fn archive_view(
    kind: SourceKind,
    urls: Vec<ArchiveUrl>,
    file_idx: Option<u16>,
    file_must_include: Vec<String>,
) -> SourceView {
    SourceView::Archive {
        kind,
        urls: part_views(urls@),
        file_idx,
        file_must_include: texts(file_must_include@),
    }
}

impl View for StreamSource {
    type V = SourceView;

    open spec fn view(&self) -> SourceView {
        match self {
            StreamSource::Url { url } => SourceView::Url { url: url@ },
            StreamSource::YouTube { yt_id } => SourceView::YouTube { yt_id: yt_id@ },
            StreamSource::Rar { urls, file_idx, file_must_include } => archive_view(
                SourceKind::Rar,
                *urls,
                *file_idx,
                *file_must_include,
            ),
            StreamSource::Zip { urls, file_idx, file_must_include } => archive_view(
                SourceKind::Zip,
                *urls,
                *file_idx,
                *file_must_include,
            ),
            StreamSource::Zip7 { urls, file_idx, file_must_include } => archive_view(
                SourceKind::Zip7,
                *urls,
                *file_idx,
                *file_must_include,
            ),
            StreamSource::Tgz { urls, file_idx, file_must_include } => archive_view(
                SourceKind::Tgz,
                *urls,
                *file_idx,
                *file_must_include,
            ),
            StreamSource::Tar { urls, file_idx, file_must_include } => archive_view(
                SourceKind::Tar,
                *urls,
                *file_idx,
                *file_must_include,
            ),
            StreamSource::Nzb { nzb_url, servers } => SourceView::Nzb {
                nzb_url: nzb_url@,
                servers: url_views(servers@),
            },
            StreamSource::Torrent {
                info_hash,
                file_idx,
                announce,
                file_must_include,
            } => SourceView::Torrent {
                info_hash: info_hash@,
                file_idx: *file_idx,
                announce: texts(announce@),
                file_must_include: texts(file_must_include@),
            },
            StreamSource::PlayerFrame { player_frame_url } => SourceView::PlayerFrame {
                player_frame_url: player_frame_url@,
            },
            StreamSource::External {
                external_url,
                android_tv_url,
                tizen_url,
                webos_url,
            } => SourceView::External {
                external_url: opt_url(*external_url),
                android_tv_url: opt_url(*android_tv_url),
                tizen_url: opt_text(*tizen_url),
                webos_url: opt_text(*webos_url),
            },
        }
    }
}

/// Whether two archives hold the same parts and options.
fn same_archive(
    urls1: &Vec<ArchiveUrl>,
    idx1: Option<u16>,
    must1: &Vec<String>,
    urls2: &Vec<ArchiveUrl>,
    idx2: Option<u16>,
    must2: &Vec<String>,
) -> (r: bool)
    ensures
        r == (part_views(urls1@) == part_views(urls2@) && idx1 == idx2 && texts(must1@) == texts(
            must2@,
        )),
{
    same_parts(urls1, urls2) && same_opt_u16(idx1, idx2) && same_texts(must1, must2)
}

/// Whether two arrays of twenty bytes are equal.
fn same_bytes(a: &[u8; 20], b: &[u8; 20]) -> (r: bool)
    ensures
        r == (a@ == b@),
{
    let mut i: usize = 0;
    while i < 20
        invariant
            i <= 20,
            forall|k: int| 0 <= k < i ==> a@[k] == b@[k],
        decreases 20 - i,
    {
        if a[i] != b[i] {
            return false;
        }
        i = i + 1;
    }
    assert(a@ =~= b@);
    true
}

impl StreamSource {
    /// Two sources are the same when they are of the same variant and hold
    /// the same values.
    pub fn same(&self, other: &StreamSource) -> (b: bool)
        ensures
            b == (self@ == other@),
    {
        match (self, other) {
            (StreamSource::Url { url: a }, StreamSource::Url { url: b }) => a.same(b),
            (StreamSource::YouTube { yt_id: a }, StreamSource::YouTube { yt_id: b }) => str_eq(
                a.as_str(),
                b.as_str(),
            ),
            (
                StreamSource::Rar { urls: u1, file_idx: i1, file_must_include: m1 },
                StreamSource::Rar { urls: u2, file_idx: i2, file_must_include: m2 },
            ) => same_archive(u1, *i1, m1, u2, *i2, m2),
            (
                StreamSource::Zip { urls: u1, file_idx: i1, file_must_include: m1 },
                StreamSource::Zip { urls: u2, file_idx: i2, file_must_include: m2 },
            ) => same_archive(u1, *i1, m1, u2, *i2, m2),
            (
                StreamSource::Zip7 { urls: u1, file_idx: i1, file_must_include: m1 },
                StreamSource::Zip7 { urls: u2, file_idx: i2, file_must_include: m2 },
            ) => same_archive(u1, *i1, m1, u2, *i2, m2),
            (
                StreamSource::Tgz { urls: u1, file_idx: i1, file_must_include: m1 },
                StreamSource::Tgz { urls: u2, file_idx: i2, file_must_include: m2 },
            ) => same_archive(u1, *i1, m1, u2, *i2, m2),
            (
                StreamSource::Tar { urls: u1, file_idx: i1, file_must_include: m1 },
                StreamSource::Tar { urls: u2, file_idx: i2, file_must_include: m2 },
            ) => same_archive(u1, *i1, m1, u2, *i2, m2),
            (
                StreamSource::Nzb { nzb_url: n1, servers: s1 },
                StreamSource::Nzb { nzb_url: n2, servers: s2 },
            ) => n1.same(n2) && same_urls(s1, s2),
            (
                StreamSource::Torrent {
                    info_hash: h1,
                    file_idx: i1,
                    announce: a1,
                    file_must_include: m1,
                },
                StreamSource::Torrent {
                    info_hash: h2,
                    file_idx: i2,
                    announce: a2,
                    file_must_include: m2,
                },
            ) => same_bytes(h1, h2) && same_opt_u16(*i1, *i2) && same_texts(a1, a2) && same_texts(
                m1,
                m2,
            ),
            (
                StreamSource::PlayerFrame { player_frame_url: a },
                StreamSource::PlayerFrame { player_frame_url: b },
            ) => a.same(b),
            (
                StreamSource::External {
                    external_url: e1,
                    android_tv_url: a1,
                    tizen_url: t1,
                    webos_url: w1,
                },
                StreamSource::External {
                    external_url: e2,
                    android_tv_url: a2,
                    tizen_url: t2,
                    webos_url: w2,
                },
            ) => same_opt_url(e1, e2) && same_opt_url(a1, a2) && same_opt_text(t1, t2)
                && same_opt_text(w1, w2),
            _ => false,
        }
    }
}

/// A stream: its source, how it is shown, and how it is to be played.
#[derive(Debug, Clone, PartialEq, Eq)]
pub struct Stream<S: StreamSourceTrait = StreamSource> {
    pub source: S,
    pub name: Option<String>,
    pub description: Option<String>,
    pub thumbnail: Option<String>,
    pub subtitles: Vec<Subtitles>,
    pub behavior_hints: StreamBehaviorHints,
}

/// All that a stream holds besides its source.
pub struct PresentationView {
    pub name: Option<Seq<char>>,
    pub description: Option<Seq<char>>,
    pub thumbnail: Option<Seq<char>>,
    pub subtitles: Seq<SubtitlesView>,
    pub behavior_hints: HintsView,
}

impl<S: StreamSourceTrait> Stream<S> {
    /// All that the stream holds besides its source.
    pub open spec fn presentation(&self) -> PresentationView {
        PresentationView {
            name: opt_text(self.name),
            description: opt_text(self.description),
            thumbnail: opt_text(self.thumbnail),
            subtitles: subtitle_views(self.subtitles@),
            behavior_hints: self.behavior_hints@,
        }
    }
}

/// The presentation of a stream of which only the source is known.
pub open spec fn bare_presentation() -> PresentationView {
    PresentationView {
        name: None,
        description: None,
        thumbnail: None,
        subtitles: Seq::empty(),
        behavior_hints: default_hints(),
    }
}

/// The YouTube video that a video id of the form
/// `yt_id:<channel>:<video>` names: the third of the pieces between colons.
pub open spec fn youtube_video(video_id: Seq<char>) -> Option<Seq<char>> {
    if "yt_id:"@.is_prefix_of(video_id) {
        nth_field(video_id, ':', 2, 0)
    } else {
        None
    }
}

/// Whether two binge groups mark their streams as parts of one viewing
/// session: both are present, they are equal, and they are not empty.
pub open spec fn binge_equivalent(a: Option<Seq<char>>, b: Option<Seq<char>>) -> bool {
    a is Some && b is Some && a.unwrap() == b.unwrap() && a.unwrap().len() > 0
}

impl Stream<StreamSource> {
    /// The stream of a YouTube video, from a video id of the form
    /// `yt_id:<channel>:<video>`.
    pub fn youtube(video_id: &str) -> (r: Option<Self>)
        ensures
            match youtube_video(video_id@) {
                Some(id) => r is Some && r->Some_0.source@ == (SourceView::YouTube { yt_id: id })
                    && r->Some_0.presentation() == bare_presentation(),
                None => r is None,
            },
    {
        match strip_prefix(video_id, "yt_id:") {
            Some(_) => {},
            None => {
                return None;
            },
        }
        match field(video_id, ':', 2) {
            Some(yt_id) => {
                let stream = Stream {
                    source: StreamSource::YouTube { yt_id },
                    name: None,
                    description: None,
                    thumbnail: None,
                    subtitles: Vec::new(),
                    behavior_hints: StreamBehaviorHints::default(),
                };
                assert(stream.presentation().subtitles =~= Seq::empty());
                Some(stream)
            },
            None => None,
        }
    }

    /// Whether the two streams have the same source.
    #[inline]
    pub fn is_source_match(&self, other_stream: &Stream) -> (b: bool)
        ensures
            b == (self.source@ == other_stream.source@),
    {
        self.source.same(&other_stream.source)
    }

    /// Whether the two streams belong to one viewing session.
    #[inline]
    pub fn is_binge_match(&self, other_stream: &Stream) -> (b: bool)
        ensures
            b == binge_equivalent(
                opt_text(self.behavior_hints.binge_group),
                opt_text(other_stream.behavior_hints.binge_group),
            ),
    {
        match (&self.behavior_hints.binge_group, &other_stream.behavior_hints.binge_group) {
            (Some(a), Some(b)) => str_eq(a.as_str(), b.as_str()) && !a.as_str().is_empty(),
            _ => false,
        }
    }

    /// The stream with `converted` in place of its source, and everything
    /// else as it is.
    pub fn to_converted(&self, converted: ConvertedStreamSource) -> (r: Stream<
        ConvertedStreamSource,
    >)
        ensures
            r.source == converted,
            r.presentation() == self.presentation(),
    {
        let r = Stream {
            source: converted,
            name: clone_opt_text(&self.name),
            description: clone_opt_text(&self.description),
            thumbnail: clone_opt_text(&self.thumbnail),
            subtitles: clone_subtitles(&self.subtitles),
            behavior_hints: self.behavior_hints.clone(),
        };
        r
    }
}

/// The fields of an external source, as long as one of them is present.
pub open spec fn external_fields_model(
    external_url: Option<Seq<char>>,
    android_tv_url: Option<Seq<char>>,
    tizen_url: Option<Seq<char>>,
    webos_url: Option<Seq<char>>,
) -> Result<SourceView, ConvertError> {
    if external_url is None && android_tv_url is None && tizen_url is None && webos_url is None {
        Err(ConvertError::InvalidExternalSource)
    } else {
        Ok(SourceView::External { external_url, android_tv_url, tizen_url, webos_url })
    }
}

/// Checks the fields that were read for an external source: at least one of
/// them must be present.
pub fn deserialize_stream_source_external(
    external_url: Option<Url>,
    android_tv_url: Option<Url>,
    tizen_url: Option<String>,
    webos_url: Option<String>,
) -> (r: Result<StreamSource, ConvertError>)
    ensures
        match external_fields_model(
            opt_url(external_url),
            opt_url(android_tv_url),
            opt_text(tizen_url),
            opt_text(webos_url),
        ) {
            Ok(source) => r is Ok && r->Ok_0@ == source,
            Err(e) => r is Err && r->Err_0 == e,
        },
{
    if external_url.is_none() && android_tv_url.is_none() && tizen_url.is_none()
        && webos_url.is_none() {
        return Err(ConvertError::InvalidExternalSource);
    }
    Ok(StreamSource::External { external_url, android_tv_url, tizen_url, webos_url })
}

} // verus!
