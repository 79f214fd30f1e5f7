//! Why a source could not be made ready for a player.

use vstd::prelude::*;
use vstd::string::*;

verus! {

/// The kinds of source that need the streaming helper.
#[derive(Debug, Clone, Copy, PartialEq, Eq, Structural)]
pub enum SourceKind {
    Rar,
    Zip,
    Zip7,
    Tgz,
    Tar,
    Nzb,
    YouTube,
    Torrent,
    Ftp,
}

/// The ways in which converting a source fails. A conversion either gives
/// the whole converted source or one of these; nothing is converted in part.
#[derive(Debug, Clone, Copy, PartialEq, Eq, Structural)]
pub enum ConvertError {
    /// The source needs the streaming helper and none is running.
    HelperUnavailable(SourceKind),
    /// An archive without parts, or an NZB source without servers.
    EmptyPartList(SourceKind),
    /// An FTP location whose path names no file.
    MissingFilename,
    /// The request body could not be written or compressed.
    PayloadEncodingFailure,
    /// An external source in which every field is absent.
    InvalidExternalSource,
    /// The helper's base URL cannot be extended to the endpoint that is
    /// wanted.
    InvalidHelperUrl,
}

impl SourceKind {
    /// Whether this is one of the five kinds of archive.
    pub open spec fn is_archive(self) -> bool {
        self is Rar || self is Zip || self is Zip7 || self is Tgz || self is Tar
    }

    /// Where the helper serves sources of this kind, relative to its base
    /// URL: archives and NZB sources are created under their own name, YouTube
    /// videos and FTP files have a directory, and torrents are served from
    /// the root.
    pub open spec fn endpoint(self) -> Seq<char> {
        match self {
            SourceKind::Rar => "rar/create"@,
            SourceKind::Zip => "zip/create"@,
            SourceKind::Zip7 => "7zip/create"@,
            SourceKind::Tgz => "tgz/create"@,
            SourceKind::Tar => "tar/create"@,
            SourceKind::Nzb => "nzb/create"@,
            SourceKind::YouTube => "yt"@,
            SourceKind::Torrent => ""@,
            SourceKind::Ftp => "ftp/"@,
        }
    }

    /// Where the helper serves sources of this kind.
    pub fn endpoint_str(self) -> (r: &'static str)
        ensures
            r@ == self.endpoint(),
    {
        match self {
            SourceKind::Rar => "rar/create",
            SourceKind::Zip => "zip/create",
            SourceKind::Zip7 => "7zip/create",
            SourceKind::Tgz => "tgz/create",
            SourceKind::Tar => "tar/create",
            SourceKind::Nzb => "nzb/create",
            SourceKind::YouTube => "yt",
            SourceKind::Torrent => "",
            SourceKind::Ftp => "ftp/",
        }
    }

    /// The name of the kind, as it is shown to a user.
    pub fn name(self) -> (r: &'static str)
        ensures
            r@ == self.name_text(),
    {
        match self {
            SourceKind::Rar => "Rar",
            SourceKind::Zip => "Zip",
            SourceKind::Zip7 => "7zip",
            SourceKind::Tgz => "tgz",
            SourceKind::Tar => "tar",
            SourceKind::Nzb => "Nzb",
            SourceKind::YouTube => "Youtube",
            SourceKind::Torrent => "Torrent",
            SourceKind::Ftp => "Ftp(s)",
        }
    }

    /// The name of the kind.
    pub open spec fn name_text(self) -> Seq<char> {
        match self {
            SourceKind::Rar => "Rar"@,
            SourceKind::Zip => "Zip"@,
            SourceKind::Zip7 => "7zip"@,
            SourceKind::Tgz => "tgz"@,
            SourceKind::Tar => "tar"@,
            SourceKind::Nzb => "Nzb"@,
            SourceKind::YouTube => "Youtube"@,
            SourceKind::Torrent => "Torrent"@,
            SourceKind::Ftp => "Ftp(s)"@,
        }
    }
}

impl ConvertError {
    /// What the error says, in words.
    pub open spec fn message_text(self) -> Seq<char> {
        match self {
            ConvertError::HelperUnavailable(kind) => "Can't play "@ + kind.name_text()
                + " because the streaming server is not running"@,
            ConvertError::EmptyPartList(kind) => "No "@ + kind.name_text() + (if kind is Nzb {
                " server URLs provided"@
            } else {
                " URLs provided"@
            }),
            ConvertError::MissingFilename => "Ftp(s) filepath is missing in the url"@,
            ConvertError::PayloadEncodingFailure => "The request body could not be encoded"@,
            ConvertError::InvalidExternalSource => "Invalid StreamSource::External"@,
            ConvertError::InvalidHelperUrl => "The streaming server URL cannot be extended"@,
        }
    }

    /// What the error says, in words.
    pub fn message(&self) -> (r: String)
        ensures
            r@ == self.message_text(),
    {
        match self {
            ConvertError::HelperUnavailable(kind) => {
                let mut out = String::from_str("Can't play ");
                out.append(kind.name());
                out.append(" because the streaming server is not running");
                out
            },
            ConvertError::EmptyPartList(kind) => {
                let mut out = String::from_str("No ");
                out.append(kind.name());
                match kind {
                    SourceKind::Nzb => out.append(" server URLs provided"),
                    _ => out.append(" URLs provided"),
                }
                out
            },
            ConvertError::MissingFilename => String::from_str(
                "Ftp(s) filepath is missing in the url",
            ),
            ConvertError::PayloadEncodingFailure => String::from_str(
                "The request body could not be encoded",
            ),
            ConvertError::InvalidExternalSource => String::from_str(
                "Invalid StreamSource::External",
            ),
            ConvertError::InvalidHelperUrl => String::from_str(
                "The streaming server URL cannot be extended",
            ),
        }
    }
}

} // verus!
