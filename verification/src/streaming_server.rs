//! The bodies of the requests that create a stream on the streaming helper.
//! Each body travels as compact JSON.

use vstd::prelude::*;
use vstd::string::*;

use crate::base16::{hex_encode, hex_text};
use crate::form::{form_encode_key, form_encoded};
use crate::json::{array_of, array_text, json_string_text, quoted, string_array, string_array_text};
use crate::stream::{part_views, url_views, ArchiveUrl};
use crate::text::{clone_texts, decimal, decimal_text, push_char, texts};
use crate::torrent::InfoHash;
use crate::web_url::{join_model, opt_url, Url};

verus! {

/// Which file of an archive or torrent is wanted.
#[derive(Debug, PartialEq, Eq)]
pub struct ArchiveStreamOptions {
    pub file_idx: Option<u16>,
    pub file_must_include: Vec<String>,
}

impl Default for ArchiveStreamOptions {
    fn default() -> (r: Self)
        ensures
            r.file_idx is None,
            r.file_must_include@.len() == 0,
    {
        ArchiveStreamOptions { file_idx: None, file_must_include: Vec::new() }
    }
}

/// The request that creates a stream from the parts of an archive. It is the
/// same for the five kinds of archive.
#[derive(Debug, PartialEq, Eq)]
pub struct ArchiveStreamBody {
    pub urls: Vec<ArchiveUrl>,
    pub options: ArchiveStreamOptions,
}

impl Default for ArchiveStreamBody {
    fn default() -> (r: Self)
        ensures
            r.urls@.len() == 0,
            r.options.file_idx is None,
            r.options.file_must_include@.len() == 0,
    {
        ArchiveStreamBody { urls: Vec::new(), options: ArchiveStreamOptions::default() }
    }
}

/// The request that creates a stream from a file on an FTP server.
#[derive(Debug, PartialEq, Eq)]
pub struct FtpStreamBody {
    pub ftp_url: Url,
}

/// The request that creates a stream from an NZB file and news servers.
#[derive(Debug, PartialEq, Eq)]
pub struct NzbStreamBody {
    pub nzb_url: Url,
    pub servers: Vec<Url>,
}

/// One part of an archive: an array of its URL and, if it is known, its size.
pub open spec fn archive_part_text(part: (Seq<char>, Option<u64>)) -> Seq<char> {
    seq!['['] + json_string_text(part.0) + (match part.1 {
        Some(bytes) => seq![','] + decimal_text(bytes as nat),
        None => Seq::empty(),
    }) + seq![']']
}

/// Each part of an archive as JSON.
pub open spec fn archive_part_texts(parts: Seq<(Seq<char>, Option<u64>)>) -> Seq<Seq<char>> {
    Seq::new(parts.len(), |i: int| archive_part_text(parts[i]))
}

/// The body for an archive: the parts under `urls`, then `fileIdx` if a file
/// is chosen, then `fileMustInclude` if it is not empty.
pub open spec fn archive_body_text(
    parts: Seq<(Seq<char>, Option<u64>)>,
    file_idx: Option<u16>,
    file_must_include: Seq<Seq<char>>,
) -> Seq<char> {
    "{\"urls\":"@ + array_text(archive_part_texts(parts)) + (match file_idx {
        Some(index) => ",\"fileIdx\":"@ + decimal_text(index as nat),
        None => Seq::empty(),
    }) + (if file_must_include.len() > 0 {
        ",\"fileMustInclude\":"@ + string_array_text(file_must_include)
    } else {
        Seq::empty()
    }) + "}"@
}

/// The body for an FTP location.
pub open spec fn ftp_body_text(ftp_url: Seq<char>) -> Seq<char> {
    "{\"ftpUrl\":"@ + json_string_text(ftp_url) + "}"@
}

/// The body for an NZB source.
pub open spec fn nzb_body_text(nzb_url: Seq<char>, servers: Seq<Seq<char>>) -> Seq<char> {
    "{\"nzbUrl\":"@ + json_string_text(nzb_url) + ",\"servers\":"@ + string_array_text(servers)
        + "}"@
}

impl ArchiveUrl {
    /// This part as JSON.
    pub fn to_json(&self) -> (r: String)
        ensures
            r@ == archive_part_text(self@),
    {
        let url = quoted(self.url.as_str());
        let mut out = String::new();
        push_char(&mut out, '[');
        out.append(url.as_str());
        match self.bytes {
            Some(bytes) => {
                push_char(&mut out, ',');
                let size = decimal(bytes);
                out.append(size.as_str());
                assert(out@ =~= seq!['['] + url@ + (seq![','] + decimal_text(bytes as nat)));
            },
            None => {
                assert(out@ =~= seq!['['] + url@ + Seq::empty());
            },
        }
        push_char(&mut out, ']');
        out
    }
}

/// The texts of a list of URLs.
pub fn url_texts(urls: &Vec<Url>) -> (r: Vec<String>)
    ensures
        texts(r@) == url_views(urls@),
{
    let mut out: Vec<String> = Vec::new();
    let mut i: usize = 0;
    while i < urls.len()
        invariant
            i <= urls.len(),
            out.len() == i,
            forall|k: int| 0 <= k < i ==> (#[trigger] out@[k])@ == urls@[k]@,
        decreases urls.len() - i,
    {
        out.push(urls[i].to_string());
        i = i + 1;
    }
    assert(texts(out@) =~= url_views(urls@));
    out
}

impl ArchiveStreamBody {
    /// The parts as JSON.
    fn parts_json(&self) -> (r: Vec<String>)
        ensures
            texts(r@) == archive_part_texts(part_views(self.urls@)),
    {
        let mut out: Vec<String> = Vec::new();
        let mut i: usize = 0;
        while i < self.urls.len()
            invariant
                i <= self.urls.len(),
                out.len() == i,
                forall|k: int|
                    0 <= k < i ==> (#[trigger] out@[k])@ == archive_part_text(self.urls@[k]@),
            decreases self.urls.len() - i,
        {
            out.push(self.urls[i].to_json());
            i = i + 1;
        }
        assert(texts(out@) =~= archive_part_texts(part_views(self.urls@)));
        out
    }

    /// The body as compact JSON.
    pub fn to_json(&self) -> (r: String)
        ensures
            r@ == archive_body_text(
                part_views(self.urls@),
                self.options.file_idx,
                texts(self.options.file_must_include@),
            ),
    {
        let parts = self.parts_json();
        let mut out = String::from_str("{\"urls\":");
        let urls = array_of(&parts);
        out.append(urls.as_str());
        match self.options.file_idx {
            Some(index) => {
                out.append(",\"fileIdx\":");
                let number = decimal(index as u64);
                out.append(number.as_str());
            },
            None => {},
        }
        if self.options.file_must_include.len() > 0 {
            out.append(",\"fileMustInclude\":");
            let must = string_array(&self.options.file_must_include);
            out.append(must.as_str());
        }
        out.append("}");
        assert(out@ =~= archive_body_text(
            part_views(self.urls@),
            self.options.file_idx,
            texts(self.options.file_must_include@),
        ));
        out
    }
}

impl FtpStreamBody {
    /// The body as compact JSON.
    pub fn to_json(&self) -> (r: String)
        ensures
            r@ == ftp_body_text(self.ftp_url@),
    {
        let url = quoted(self.ftp_url.as_str());
        let mut out = String::from_str("{\"ftpUrl\":");
        out.append(url.as_str());
        out.append("}");
        out
    }
}

impl NzbStreamBody {
    /// The body as compact JSON.
    pub fn to_json(&self) -> (r: String)
        ensures
            r@ == nzb_body_text(self.nzb_url@, url_views(self.servers@)),
    {
        let url = quoted(self.nzb_url.as_str());
        let servers = url_texts(&self.servers);
        let list = string_array(&servers);
        let mut out = String::from_str("{\"nzbUrl\":");
        out.append(url.as_str());
        out.append(",\"servers\":");
        out.append(list.as_str());
        out.append("}");
        out
    }
}

/// Names the file of a torrent whose statistics are wanted.
#[derive(Debug, Clone, PartialEq, Eq)]
pub struct StatisticsRequest {
    pub info_hash: String,
    pub file_idx: u16,
}

/// The request that hands the helper a torrent file.
#[derive(Debug, PartialEq, Eq)]
pub struct CreateTorrentBlobRequest {
    pub server_url: Url,
    pub torrent: Vec<u8>,
}

/// The body of the request that hands the helper a torrent file: the file in
/// base 16.
#[derive(Debug, Clone, PartialEq, Eq)]
pub struct CreateTorrentBlobBody {
    pub blob: String,
}

impl CreateTorrentBlobRequest {
    /// Where the request goes: `/create` on the helper.
    pub fn endpoint(&self) -> (r: Option<Url>)
        ensures
            opt_url(r) == join_model(self.server_url@, "/create"@),
    {
        self.server_url.join("/create")
    }

    /// What the request carries.
    pub fn body(&self) -> (r: CreateTorrentBlobBody)
        ensures
            r.blob@ == hex_text(self.torrent@),
    {
        CreateTorrentBlobBody { blob: hex_encode(self.torrent.as_slice()) }
    }
}

/// The request that makes the helper load a torrent by its info hash.
#[derive(Debug, PartialEq, Eq)]
pub struct CreateMagnetRequest {
    pub server_url: Url,
    pub info_hash: InfoHash,
    pub announce: Vec<String>,
}

/// How the helper is to look for the peers of a torrent: how many it should
/// find at least and at most, and the trackers it is to ask besides the
/// torrent's own network.
#[derive(Debug, Clone, PartialEq, Eq)]
pub struct PeerSearch {
    pub min: u64,
    pub max: u64,
    pub info_hash: InfoHash,
    pub additional_trackers: Vec<String>,
}

impl PeerSearch {
    pub fn new(min: u64, max: u64, info_hash: InfoHash, additional_trackers: Vec<String>) -> (r:
        Self)
        ensures
            r.min == min,
            r.max == max,
            r.info_hash == info_hash,
            r.additional_trackers == additional_trackers,
    {
        PeerSearch { min, max, info_hash, additional_trackers }
    }
}

/// The torrent that a request names.
#[derive(Debug, Clone, Copy, PartialEq, Eq)]
pub struct CreateMagnetTorrent {
    pub info_hash: InfoHash,
}

/// The body of the request that makes the helper load a torrent.
#[derive(Debug, Clone, PartialEq, Eq)]
pub struct CreateMagnetBody {
    pub stream: CreateMagnetTorrent,
    pub peer_search: Option<PeerSearch>,
}

/// The fewest peers that the helper is to find for a torrent.
pub const PEER_SEARCH_MIN: u64 = 40;

/// The most peers that the helper is to look for.
pub const PEER_SEARCH_MAX: u64 = 200;

/// The path of the endpoint that loads the torrent with the given info
/// hash, relative to the helper.
pub open spec fn create_magnet_path(info_hash: Seq<u8>) -> Seq<char> {
    hex_text(info_hash) + "/create"@
}

impl CreateMagnetRequest {
    /// Where the request goes: `<info hash>/create` on the helper.
    pub fn endpoint(&self) -> (r: Option<Url>)
        ensures
            opt_url(r) == join_model(self.server_url@, create_magnet_path(self.info_hash@)),
    {
        let mut path = self.info_hash.to_string();
        path.append("/create");
        self.server_url.join(path.as_str())
    }

    /// What the request carries: the torrent, and a search for peers if the
    /// request names trackers.
    pub fn body(&self) -> (r: CreateMagnetBody)
        ensures
            r.stream.info_hash@ == self.info_hash@,
            r.peer_search is Some == (self.announce@.len() > 0),
            r.peer_search matches Some(search) ==> search.min == PEER_SEARCH_MIN && search.max
                == PEER_SEARCH_MAX && search.info_hash@ == self.info_hash@ && texts(
                search.additional_trackers@,
            ) == texts(self.announce@),
    {
        CreateMagnetBody {
            stream: CreateMagnetTorrent { info_hash: self.info_hash },
            peer_search: if self.announce.len() > 0 {
                Some(
                    PeerSearch::new(
                        PEER_SEARCH_MIN,
                        PEER_SEARCH_MAX,
                        self.info_hash,
                        clone_texts(&self.announce),
                    ),
                )
            } else {
                None
            },
        }
    }
}

/// The request for the statistics of a file of a torrent.
#[derive(Debug, PartialEq, Eq)]
pub struct TorrentStatisticsRequest {
    pub server_url: Url,
    pub request: StatisticsRequest,
}

/// The path of the statistics of a file of a torrent, relative to the
/// helper: the info hash and the file index, each form-encoded, and
/// `stats.json`.
pub open spec fn statistics_path(info_hash: Seq<char>, file_idx: u16) -> Seq<char> {
    form_encoded(info_hash) + "/"@ + form_encoded(decimal_text(file_idx as nat))
        + "/stats.json"@
}

impl TorrentStatisticsRequest {
    /// Where the request goes.
    pub fn endpoint(&self) -> (r: Option<Url>)
        ensures
            opt_url(r) == join_model(
                self.server_url@,
                statistics_path(self.request.info_hash@, self.request.file_idx),
            ),
    {
        let mut path = form_encode_key(self.request.info_hash.as_str());
        path.append("/");
        let index = decimal(self.request.file_idx as u64);
        let encoded = form_encode_key(index.as_str());
        path.append(encoded.as_str());
        path.append("/stats.json");
        self.server_url.join(path.as_str())
    }
}

} // verus!
