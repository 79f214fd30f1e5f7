//! The source of a stream after conversion: what a player can consume.

use vstd::prelude::*;
use vstd::string::*;

use crate::sealed::Sealed;
use crate::stream::StreamSource;
use crate::text::{clone_opt_text, clone_texts, opt_text, same_opt_text, same_texts, texts};
use crate::torrent::InfoHash;
use crate::web_url::{opt_url, Url};

verus! {

/// The types that can stand as the source of a stream: the source as an
/// addon describes it, and the source after conversion.
pub trait StreamSourceTrait: Sealed {

}

impl StreamSourceTrait for ConvertedStreamSource {

}

impl Sealed for ConvertedStreamSource {

}

impl Sealed for StreamSource {

}

impl StreamSourceTrait for StreamSource {

}

/// A source that is ready for a player. Every archive, NZB and FTP source
/// has become a plain URL on the way here.
#[derive(Debug, PartialEq, Eq)]
pub enum ConvertedStreamSource {
    Url { url: Url },
    YouTube {
        /// The streaming URL.
        url: Url,
        yt_id: String,
    },
    Torrent {
        /// The streaming URL.
        url: Url,
        info_hash: InfoHash,
        file_idx: Option<u16>,
        announce: Vec<String>,
        file_must_include: Vec<String>,
    },
    PlayerFrame { player_frame_url: Url },
    External {
        external_url: Option<Url>,
        android_tv_url: Option<Url>,
        tizen_url: Option<String>,
        webos_url: Option<String>,
    },
}

/// What a converted source holds.
pub enum ConvertedView {
    Url { url: Seq<char> },
    YouTube { url: Seq<char>, yt_id: Seq<char> },
    Torrent {
        url: Seq<char>,
        info_hash: Seq<u8>,
        file_idx: Option<u16>,
        announce: Seq<Seq<char>>,
        file_must_include: Seq<Seq<char>>,
    },
    PlayerFrame { player_frame_url: Seq<char> },
    External {
        external_url: Option<Seq<char>>,
        android_tv_url: Option<Seq<char>>,
        tizen_url: Option<Seq<char>>,
        webos_url: Option<Seq<char>>,
    },
}

impl View for ConvertedStreamSource {
    type V = ConvertedView;

    open spec fn view(&self) -> ConvertedView {
        match self {
            ConvertedStreamSource::Url { url } => ConvertedView::Url { url: url@ },
            ConvertedStreamSource::YouTube { url, yt_id } => ConvertedView::YouTube {
                url: url@,
                yt_id: yt_id@,
            },
            ConvertedStreamSource::Torrent {
                url,
                info_hash,
                file_idx,
                announce,
                file_must_include,
            } => ConvertedView::Torrent {
                url: url@,
                info_hash: info_hash@,
                file_idx: *file_idx,
                announce: texts(announce@),
                file_must_include: texts(file_must_include@),
            },
            ConvertedStreamSource::PlayerFrame { player_frame_url } => ConvertedView::PlayerFrame {
                player_frame_url: player_frame_url@,
            },
            ConvertedStreamSource::External {
                external_url,
                android_tv_url,
                tizen_url,
                webos_url,
            } => ConvertedView::External {
                external_url: opt_url(*external_url),
                android_tv_url: opt_url(*android_tv_url),
                tizen_url: opt_text(*tizen_url),
                webos_url: opt_text(*webos_url),
            },
        }
    }
}

/// A copy of an optional URL.
pub fn clone_opt_url(o: &Option<Url>) -> (r: Option<Url>)
    ensures
        opt_url(r) == opt_url(*o),
{
    match o {
        Some(u) => Some(u.clone()),
        None => None,
    }
}

/// Whether two optional URLs are both absent or the same.
pub fn same_opt_url(a: &Option<Url>, b: &Option<Url>) -> (r: bool)
    ensures
        r == (opt_url(*a) == opt_url(*b)),
{
    match (a, b) {
        (Some(x), Some(y)) => x.same(y),
        (None, None) => true,
        _ => false,
    }
}

impl Clone for ConvertedStreamSource {
    fn clone(&self) -> (r: Self)
        ensures
            r@ == self@,
    {
        match self {
            ConvertedStreamSource::Url { url } => ConvertedStreamSource::Url { url: url.clone() },
            ConvertedStreamSource::YouTube { url, yt_id } => ConvertedStreamSource::YouTube {
                url: url.clone(),
                yt_id: yt_id.clone(),
            },
            ConvertedStreamSource::Torrent {
                url,
                info_hash,
                file_idx,
                announce,
                file_must_include,
            } => ConvertedStreamSource::Torrent {
                url: url.clone(),
                info_hash: *info_hash,
                file_idx: *file_idx,
                announce: clone_texts(announce),
                file_must_include: clone_texts(file_must_include),
            },
            ConvertedStreamSource::PlayerFrame {
                player_frame_url,
            } => ConvertedStreamSource::PlayerFrame { player_frame_url: player_frame_url.clone() },
            ConvertedStreamSource::External {
                external_url,
                android_tv_url,
                tizen_url,
                webos_url,
            } => ConvertedStreamSource::External {
                external_url: clone_opt_url(external_url),
                android_tv_url: clone_opt_url(android_tv_url),
                tizen_url: clone_opt_text(tizen_url),
                webos_url: clone_opt_text(webos_url),
            },
        }
    }
}

impl ConvertedStreamSource {
    /// Two converted sources are the same when they hold the same values.
    pub fn same(&self, other: &ConvertedStreamSource) -> (b: bool)
        ensures
            b == (self@ == other@),
    {
        match (self, other) {
            (
                ConvertedStreamSource::Url { url: a },
                ConvertedStreamSource::Url { url: b },
            ) => a.same(b),
            (
                ConvertedStreamSource::YouTube { url: a, yt_id: c },
                ConvertedStreamSource::YouTube { url: b, yt_id: d },
            ) => a.same(b) && crate::text::str_eq(c.as_str(), d.as_str()),
            (
                ConvertedStreamSource::Torrent {
                    url: a,
                    info_hash: h1,
                    file_idx: i1,
                    announce: a1,
                    file_must_include: f1,
                },
                ConvertedStreamSource::Torrent {
                    url: b,
                    info_hash: h2,
                    file_idx: i2,
                    announce: a2,
                    file_must_include: f2,
                },
            ) => a.same(b) && h1.same(h2) && same_opt_u16(*i1, *i2) && same_texts(a1, a2)
                && same_texts(f1, f2),
            (
                ConvertedStreamSource::PlayerFrame { player_frame_url: a },
                ConvertedStreamSource::PlayerFrame { player_frame_url: b },
            ) => a.same(b),
            (
                ConvertedStreamSource::External {
                    external_url: e1,
                    android_tv_url: a1,
                    tizen_url: t1,
                    webos_url: w1,
                },
                ConvertedStreamSource::External {
                    external_url: e2,
                    android_tv_url: a2,
                    tizen_url: t2,
                    webos_url: w2,
                },
            ) => same_opt_url(e1, e2) && same_opt_url(a1, a2) && same_opt_text(t1, t2)
                && same_opt_text(w1, w2),
            _ => false,
        }
    }
}

/// Whether two optional file indices are equal.
pub fn same_opt_u16(a: Option<u16>, b: Option<u16>) -> (r: bool)
    ensures
        r == (a == b),
{
    match (a, b) {
        (Some(x), Some(y)) => x == y,
        (None, None) => true,
        _ => false,
    }
}

} // verus!
