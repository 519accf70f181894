//! The playlist type tag value: video-on-demand or append-only event.
use crate::strutil::str_eq;
use vstd::prelude::*;

verus! {

/// Failed to parse a playlist type
#[derive(Debug, PartialEq, Eq, Clone)]
pub struct ParsePlaylistTypeError {
    /// The text that is not a playlist type
    pub text: String,
}

/// The playlist type
#[derive(Debug, Copy, Clone, Eq, PartialEq, Hash, Structural)]
pub enum PlaylistType {
    /// The playlist cannot change
    Vod,
    /// The playlist is append only
    Event,
}

/// The playlist type that `s` names, if any: `VOD` or `EVENT`.
pub open spec fn playlist_type_of(s: Seq<char>) -> Option<PlaylistType> {
    if s == "VOD"@ {
        Some(PlaylistType::Vod)
    } else if s == "EVENT"@ {
        Some(PlaylistType::Event)
    } else {
        None
    }
}

impl PlaylistType {
    /// Parses `VOD` or `EVENT`; anything else is an error carrying the text.
    pub fn from_str(input: &str) -> (r: Result<PlaylistType, ParsePlaylistTypeError>)
        ensures
            match r {
                Ok(t) => playlist_type_of(input@) == Some(t),
                Err(e) => playlist_type_of(input@) is None && e.text@ == input@,
            },
    {
        if str_eq(input, "VOD") {
            Ok(PlaylistType::Vod)
        } else if str_eq(input, "EVENT") {
            Ok(PlaylistType::Event)
        } else {
            Err(ParsePlaylistTypeError { text: input.to_owned() })
        }
    }
}

} // verus!
