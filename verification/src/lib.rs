//! A verified core for an HLS (RFC 8216) playlist downloader: a tag and
//! attribute-list lexer, media and master playlist parsers, and the decision
//! logic of the download pipeline that turns a playlist into one local file.
use crate::strutil::str_eq;
use vstd::prelude::*;

pub mod anime_type;
pub mod debian_sysroot;
pub mod decimal;
pub mod ffmpeg_time;
pub mod master_playlist;
pub mod media_playlist;
pub mod paths;
pub mod playlist_type;
pub mod session;
pub mod strutil;
pub mod tag;
pub mod urls;

verus! {

/// A playlist error at the view level: what the contracts speak of.
pub enum SpecError {
    /// Unexpected EOF
    UnexpectedEof,
    /// The first line is not the start tag
    InvalidStartTag { tag: Seq<char> },
    /// Duplicate tag
    DuplicateTag { tag: Seq<char> },
    /// A URI was invalid
    InvalidUri { line: Seq<char> },
    /// Missing a tag
    MissingTag { tag: Seq<char> },
    /// An error occurred while parsing a tag
    Tag { error: crate::tag::SpecTagError },
    /// A tag was invalid in the given context
    InvalidTag,
}

/// The library error type
#[derive(Debug, PartialEq, Eq, Clone)]
pub enum Error {
    /// Unexpected EOF
    UnexpectedEof,
    /// The first line is not the `#EXTM3U` start tag
    InvalidStartTag {
        /// The unexpected first line
        tag: String,
    },
    /// Duplicate tag
    DuplicateTag {
        /// The duplicated tag name
        tag: &'static str,
    },
    /// A URI was invalid
    InvalidUri {
        /// The line that failed to parse
        line: String,
    },
    /// Missing a tag
    MissingTag {
        /// The name of the missing tag
        tag: &'static str,
    },
    /// An error occurred while parsing a tag
    Tag {
        /// The inner error
        error: crate::tag::ParseTagError,
    },
    /// A tag was invalid in the given context
    InvalidTag,
}

impl View for Error {
    type V = SpecError;

    open spec fn view(&self) -> SpecError {
        match self {
            Error::UnexpectedEof => SpecError::UnexpectedEof,
            Error::InvalidStartTag { tag } => SpecError::InvalidStartTag { tag: tag@ },
            Error::DuplicateTag { tag } => SpecError::DuplicateTag { tag: tag@ },
            Error::InvalidUri { line } => SpecError::InvalidUri { line: line@ },
            Error::MissingTag { tag } => SpecError::MissingTag { tag: tag@ },
            Error::Tag { error } => SpecError::Tag { error: error@ },
            Error::InvalidTag => SpecError::InvalidTag,
        }
    }
}

/// An error that may occur while parsing a video range
#[derive(Debug, PartialEq, Eq, Clone)]
pub struct ParseVideoRangeError {
    /// The text that is not a video range
    pub text: String,
}

/// Video ranges
#[derive(Debug, Copy, Clone, Eq, PartialEq, Hash, Structural)]
pub enum VideoRange {
    /// SDR
    Sdr,
    /// HLG
    Hlg,
    /// PQ
    Pq,
}

/// The video range that `s` names, if any: `SDR`, `HLG` or `PQ`.
pub open spec fn video_range_of(s: Seq<char>) -> Option<VideoRange> {
    if s == "SDR"@ {
        Some(VideoRange::Sdr)
    } else if s == "HLG"@ {
        Some(VideoRange::Hlg)
    } else if s == "PQ"@ {
        Some(VideoRange::Pq)
    } else {
        None
    }
}

impl VideoRange {
    /// Parses `SDR`, `HLG` or `PQ`; anything else is an error carrying the
    /// text.
    pub fn from_str(input: &str) -> (r: Result<VideoRange, ParseVideoRangeError>)
        ensures
            match r {
                Ok(v) => video_range_of(input@) == Some(v),
                Err(e) => video_range_of(input@) is None && e.text@ == input@,
            },
    {
        if str_eq(input, "SDR") {
            Ok(VideoRange::Sdr)
        } else if str_eq(input, "HLG") {
            Ok(VideoRange::Hlg)
        } else if str_eq(input, "PQ") {
            Ok(VideoRange::Pq)
        } else {
            Err(ParseVideoRangeError { text: input.to_owned() })
        }
    }
}

} // verus!
