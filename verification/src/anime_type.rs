//! The three-letter anime type codes used by the catalog collaborators.
use crate::strutil::str_eq;
use vstd::prelude::*;

verus! {

/// An error that may occur while parsing an [`AnimeType`]
#[derive(Debug, PartialEq, Eq, Clone)]
pub struct FromStrError {
    /// The text that is not an anime type
    pub text: String,
}

/// Anime Type
#[derive(Debug, Copy, Clone, Eq, PartialEq, Hash, Structural)]
pub enum AnimeType {
    /// Dubbed
    Dub,
    /// Subbed
    Sub,
    /// RAW
    Raw,
}

/// The anime type that `s` names, if any: `DUB`, `SUB` or `RAW`.
pub open spec fn anime_type_of(s: Seq<char>) -> Option<AnimeType> {
    if s == "DUB"@ {
        Some(AnimeType::Dub)
    } else if s == "SUB"@ {
        Some(AnimeType::Sub)
    } else if s == "RAW"@ {
        Some(AnimeType::Raw)
    } else {
        None
    }
}

impl AnimeType {
    /// Get this as a str.
    ///
    /// String representations are 3 letters, all capitals.
    pub fn as_str(self) -> (r: &'static str)
        ensures
            anime_type_of(r@) == Some(self),
    {
        proof {
            reveal_strlit("SUB");
            reveal_strlit("DUB");
            reveal_strlit("RAW");
            assert("SUB"@[0] == 'S' && "DUB"@[0] == 'D' && "RAW"@[0] == 'R');
            assert(anime_type_of("SUB"@) == Some(AnimeType::Sub));
            assert(anime_type_of("DUB"@) == Some(AnimeType::Dub));
            assert(anime_type_of("RAW"@) == Some(AnimeType::Raw));
        }
        match self {
            AnimeType::Sub => "SUB",
            AnimeType::Dub => "DUB",
            AnimeType::Raw => "RAW",
        }
    }

    /// Returns `true` if it is `Dub`.
    pub fn is_dub(self) -> (r: bool)
        ensures
            r == (self is Dub),
    {
        matches!(self, AnimeType::Dub)
    }

    /// Returns `true` if it is `Sub`.
    pub fn is_sub(self) -> (r: bool)
        ensures
            r == (self is Sub),
    {
        matches!(self, AnimeType::Sub)
    }

    /// Returns `true` if it is `Raw`.
    pub fn is_raw(self) -> (r: bool)
        ensures
            r == (self is Raw),
    {
        matches!(self, AnimeType::Raw)
    }

    /// Parses `DUB`, `SUB` or `RAW`; anything else is an error carrying the
    /// text.
    pub fn from_str(data: &str) -> (r: Result<AnimeType, FromStrError>)
        ensures
            match r {
                Ok(t) => anime_type_of(data@) == Some(t),
                Err(e) => anime_type_of(data@) is None && e.text@ == data@,
            },
    {
        if str_eq(data, "DUB") {
            Ok(AnimeType::Dub)
        } else if str_eq(data, "SUB") {
            Ok(AnimeType::Sub)
        } else if str_eq(data, "RAW") {
            Ok(AnimeType::Raw)
        } else {
            Err(FromStrError { text: data.to_owned() })
        }
    }
}

} // verus!
