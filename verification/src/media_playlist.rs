//! The media playlist parser: a state machine over lines that accumulates
//! tag state and emits the ordered media segment list with the playlist's
//! metadata.
use crate::decimal::Decimal;
use crate::playlist_type::PlaylistType;
use crate::strutil::char_at;
use crate::strutil::lines_of;
use crate::strutil::split_lines;
use crate::strutil::starts_with;
use crate::strutil::str_eq;
use crate::strutil::str_len;
use crate::strutil::str_starts_with;
use crate::strutil::substring;
use crate::tag::view_opt_str;
use crate::tag::SpecTag;
use crate::tag::Tag;
use crate::urls::check_uri_reference;
use crate::urls::uri_reference_valid;
use crate::Error;
use crate::SpecError;
use vstd::prelude::*;
use vstd::string::StrSliceExecFns;

verus! {

/// A media segment at the view level.
pub struct SpecMediaSegment {
    /// The segment duration, in seconds.
    pub duration: Decimal,
    /// The segment title.
    pub title: Option<Seq<char>>,
    /// The segment uri.
    pub uri: Seq<char>,
}

/// A media segment
#[derive(Debug, PartialEq, Eq, Clone)]
pub struct MediaSegment {
    /// The duration, in seconds
    pub duration: Decimal,
    /// The title
    pub title: Option<String>,
    /// The uri
    pub uri: String,
}

impl View for MediaSegment {
    type V = SpecMediaSegment;

    open spec fn view(&self) -> SpecMediaSegment {
        SpecMediaSegment {
            duration: self.duration,
            title: view_opt_str(self.title),
            uri: self.uri@,
        }
    }
}

/// A media playlist at the view level.
pub struct SpecMediaPlaylist {
    /// The target duration.
    pub target_duration: Decimal,
    /// The media segments, in playlist order.
    pub media_segments: Seq<SpecMediaSegment>,
    /// The version.
    pub version: Option<u8>,
    /// The media sequence number of the first segment.
    pub media_sequence_number: Option<u64>,
    /// The playlist type.
    pub playlist_type: Option<PlaylistType>,
}

/// A media playlist
#[derive(Debug, PartialEq, Eq, Clone)]
pub struct MediaPlaylist {
    /// The target duration
    pub target_duration: Decimal,
    /// The media segments
    pub media_segments: Vec<MediaSegment>,
    /// The version
    pub version: Option<u8>,
    /// The media sequence number of the first media segment.
    ///
    /// If this is `None`, it can be assumed to be 0.
    pub media_sequence_number: Option<u64>,
    /// The playlist type
    pub playlist_type: Option<PlaylistType>,
}

impl View for MediaPlaylist {
    type V = SpecMediaPlaylist;

    open spec fn view(&self) -> SpecMediaPlaylist {
        SpecMediaPlaylist {
            target_duration: self.target_duration,
            media_segments: self.media_segments@.map_values(|m: MediaSegment| m@),
            version: self.version,
            media_sequence_number: self.media_sequence_number,
            playlist_type: self.playlist_type,
        }
    }
}

/// The media playlist parser's state between lines, at the view level.
pub struct SpecMediaAcc {
    /// The target duration, once seen.
    pub target_duration: Option<Decimal>,
    /// The version, once seen.
    pub version: Option<u8>,
    /// The media sequence number; the last one seen wins.
    pub media_sequence_number: Option<u64>,
    /// The playlist type; the last one seen wins.
    pub playlist_type: Option<PlaylistType>,
    /// The most recent unconsumed EXTINF value.
    pub pending: Option<(Decimal, Option<Seq<char>>)>,
    /// The segments emitted so far.
    pub segments: Seq<SpecMediaSegment>,
}

/// The parser state before any body line.
pub open spec fn initial_media_acc() -> SpecMediaAcc {
    SpecMediaAcc {
        target_duration: None,
        version: None,
        media_sequence_number: None,
        playlist_type: None,
        pending: None,
        segments: Seq::empty(),
    }
}

/// One body line of a media playlist: empty lines and plain comments are
/// skipped, `#EXT` lines are tags that update the state, and any other line
/// is a segment URI that consumes the pending EXTINF value.
pub open spec fn spec_media_line(acc: SpecMediaAcc, line: Seq<char>) -> Result<
    SpecMediaAcc,
    SpecError,
> {
    if line.len() == 0 {
        Ok(acc)
    } else if line[0] == '#' {
        let body = line.skip(1);
        if starts_with(body, "EXT"@) {
            match crate::tag::spec_parse_tag(body) {
                Err(e) => Err(SpecError::Tag { error: e }),
                Ok(tag) => match tag {
                    SpecTag::TargetDuration { duration } => {
                        if acc.target_duration is Some {
                            Err(SpecError::DuplicateTag { tag: "EXT-X-TARGETDURATION"@ })
                        } else {
                            Ok(SpecMediaAcc { target_duration: Some(duration), ..acc })
                        }
                    },
                    SpecTag::Inf { duration, title } => {
                        // Duplicated EXTINF tags are unspecified; the last
                        // value wins.
                        Ok(SpecMediaAcc { pending: Some((duration, title)), ..acc })
                    },
                    SpecTag::Version { version } => {
                        if acc.version is Some {
                            Err(SpecError::DuplicateTag { tag: "EXT-X-VERSION"@ })
                        } else {
                            Ok(SpecMediaAcc { version: Some(version), ..acc })
                        }
                    },
                    SpecTag::MediaSequence { number } => {
                        Ok(SpecMediaAcc { media_sequence_number: Some(number), ..acc })
                    },
                    SpecTag::Key { method, uri } => {
                        // Parsed but not yet applied to media segments.
                        Ok(acc)
                    },
                    SpecTag::AllowCache => {
                        // Removed from the standard, still tolerated.
                        Ok(acc)
                    },
                    SpecTag::PlaylistType { playlist_type } => {
                        Ok(SpecMediaAcc { playlist_type: Some(playlist_type), ..acc })
                    },
                    SpecTag::EndList => {
                        // Recorded structurally; does not change parsing.
                        Ok(acc)
                    },
                    _ => Err(SpecError::InvalidTag),
                },
            }
        } else {
            Ok(acc)
        }
    } else {
        if !uri_reference_valid(line) {
            Err(SpecError::InvalidUri { line })
        } else {
            match acc.pending {
                None => Err(SpecError::MissingTag { tag: "EXTINF"@ }),
                Some((duration, title)) => Ok(
                    SpecMediaAcc {
                        pending: None,
                        segments: acc.segments.push(
                            SpecMediaSegment { duration, title, uri: line },
                        ),
                        ..acc
                    },
                ),
            }
        }
    }
}

/// The body lines from index `i` on, folded over `acc`.
pub open spec fn spec_media_fold(lines: Seq<Seq<char>>, i: int, acc: SpecMediaAcc) -> Result<
    SpecMediaAcc,
    SpecError,
>
    decreases lines.len() - i,
{
    if i < 0 || i >= lines.len() {
        Ok(acc)
    } else {
        match spec_media_line(acc, lines[i]) {
            Err(e) => Err(e),
            Ok(a2) => spec_media_fold(lines, i + 1, a2),
        }
    }
}

/// A whole media playlist: the `#EXTM3U` start line, the body fold, and the
/// required target duration.
pub open spec fn spec_parse_media_playlist(input: Seq<char>) -> Result<
    SpecMediaPlaylist,
    SpecError,
> {
    let lines = lines_of(input);
    if lines.len() == 0 {
        Err(SpecError::UnexpectedEof)
    } else if lines[0] != "#EXTM3U"@ {
        Err(SpecError::InvalidStartTag { tag: lines[0] })
    } else {
        match spec_media_fold(lines, 1, initial_media_acc()) {
            Err(e) => Err(e),
            Ok(acc) => match acc.target_duration {
                None => Err(SpecError::MissingTag { tag: "EXT-X-TARGETDURATION"@ }),
                Some(target_duration) => Ok(
                    SpecMediaPlaylist {
                        target_duration,
                        media_segments: acc.segments,
                        version: acc.version,
                        media_sequence_number: acc.media_sequence_number,
                        playlist_type: acc.playlist_type,
                    },
                ),
            },
        }
    }
}

/// Whether every segment the parser state holds has a valid URI.
pub open spec fn spec_media_acc_uris_valid(acc: SpecMediaAcc) -> bool {
    forall|k: int|
        0 <= k < acc.segments.len() ==> uri_reference_valid(#[trigger] acc.segments[k].uri)
}

/// One parser step only adds segments whose URI line passed validation.
proof fn lemma_media_line_keeps_valid(acc: SpecMediaAcc, line: Seq<char>)
    requires
        spec_media_acc_uris_valid(acc),
        spec_media_line(acc, line) is Ok,
    ensures
        spec_media_acc_uris_valid(spec_media_line(acc, line)->Ok_0),
{
    let out = spec_media_line(acc, line)->Ok_0;
    assert forall|k: int| 0 <= k < out.segments.len() implies uri_reference_valid(
        #[trigger] out.segments[k].uri,
    ) by {
        if k < acc.segments.len() {
            assert(uri_reference_valid(acc.segments[k].uri));
        }
    }
}

/// The fold only adds segments whose URI lines passed validation.
proof fn lemma_media_fold_valid(lines: Seq<Seq<char>>, i: int, acc: SpecMediaAcc)
    requires
        spec_media_acc_uris_valid(acc),
        spec_media_fold(lines, i, acc) is Ok,
    ensures
        spec_media_acc_uris_valid(spec_media_fold(lines, i, acc)->Ok_0),
    decreases lines.len() - i,
{
    if 0 <= i < lines.len() {
        lemma_media_line_keeps_valid(acc, lines[i]);
        lemma_media_fold_valid(lines, i + 1, spec_media_line(acc, lines[i])->Ok_0);
    }
}

/// Every segment of a successfully parsed media playlist carries a URI that
/// passed RFC 3986 validation.
pub proof fn lemma_media_playlist_uris_valid(input: Seq<char>)
    requires
        spec_parse_media_playlist(input) is Ok,
    ensures
        forall|k: int|
            0 <= k < spec_parse_media_playlist(input)->Ok_0.media_segments.len()
                ==> uri_reference_valid(
                #[trigger] spec_parse_media_playlist(input)->Ok_0.media_segments[k].uri,
            ),
{
    let lines = lines_of(input);
    lemma_media_fold_valid(lines, 1, initial_media_acc());
}

/// A URI line with no preceding unconsumed EXTINF tag is always refused
/// with `MissingTag`: a segment URI must be announced by the tag
/// immediately before it.
pub proof fn lemma_uri_line_needs_extinf(acc: SpecMediaAcc, line: Seq<char>)
    requires
        line.len() > 0,
        line[0] != '#',
        uri_reference_valid(line),
        acc.pending is None,
    ensures
        spec_media_line(acc, line) == Err::<SpecMediaAcc, SpecError>(
            SpecError::MissingTag { tag: "EXTINF"@ },
        ),
{
}

/// The view of a pending EXTINF value.
pub open spec fn view_pending(p: Option<(Decimal, Option<String>)>) -> Option<
    (Decimal, Option<Seq<char>>),
> {
    match p {
        Some((d, t)) => Some((d, view_opt_str(t))),
        None => None,
    }
}

/// Whether the parse outcome `r` is the view-level outcome `s`.
pub open spec fn media_result_matches(
    r: Result<MediaPlaylist, Error>,
    s: Result<SpecMediaPlaylist, SpecError>,
) -> bool {
    match r {
        Ok(p) => s matches Ok(sp) && p@ == sp,
        Err(e) => s matches Err(se) && e@ == se,
    }
}

impl MediaPlaylist {
    /// Parses a whole media playlist document.
    ///
    /// The result is exactly what the playlist grammar assigns to the text:
    /// the required `#EXTM3U` start line, then tag and URI lines in order,
    /// each URI consuming the EXTINF tag immediately before it.
    pub fn from_str(input: &str) -> (r: Result<MediaPlaylist, Error>)
        ensures
            media_result_matches(r, spec_parse_media_playlist(input@)),
    {
        let lines = split_lines(input);
        let ghost lv = lines@.map_values(|l: String| l@);
        if lines.len() == 0 {
            return Err(Error::UnexpectedEof);
        }
        if !str_eq(lines[0].as_str(), "#EXTM3U") {
            return Err(Error::InvalidStartTag { tag: lines[0].clone() });
        }
        let mut target_duration: Option<Decimal> = None;
        let mut version: Option<u8> = None;
        let mut media_sequence_number: Option<u64> = None;
        let mut playlist_type: Option<PlaylistType> = None;
        let mut pending: Option<(Decimal, Option<String>)> = None;
        let mut segments: Vec<MediaSegment> = Vec::new();
        let mut i: usize = 1;
        proof {
            assert(segments@.map_values(|m: MediaSegment| m@) =~= Seq::<SpecMediaSegment>::empty());
        }
        while i < lines.len()
            invariant
                1 <= i <= lines@.len(),
                lv == lines@.map_values(|l: String| l@),
                lv == lines_of(input@),
                lv.len() > 0,
                lv[0] == "#EXTM3U"@,
                spec_media_fold(
                    lv,
                    i as int,
                    (SpecMediaAcc {
                        target_duration,
                        version,
                        media_sequence_number,
                        playlist_type,
                        pending: view_pending(pending),
                        segments: segments@.map_values(|m: MediaSegment| m@),
                    }),
                ) == spec_media_fold(lv, 1, initial_media_acc()),
            decreases lines.len() - i,
        {
            let ghost acc0 = SpecMediaAcc {
                target_duration,
                version,
                media_sequence_number,
                playlist_type,
                pending: view_pending(pending),
                segments: segments@.map_values(|m: MediaSegment| m@),
            };
            let line: &String = &lines[i];
            let ghost linev = lv[i as int];
            proof {
                assert(linev == line@);
            }
            let n = str_len(line.as_str());
            if n == 0 {
                // An empty line is skipped.
            } else if char_at(line.as_str(), 0) == '#' {
                let body = substring(line.as_str(), 1, n);
                proof {
                    assert(body@ =~= linev.skip(1));
                }
                if str_starts_with(body.as_str(), "EXT") {
                    let tag = match Tag::parse(body.as_str()) {
                        Ok(tag) => tag,
                        Err(error) => {
                            return Err(Error::Tag { error });
                        },
                    };
                    match tag {
                        Tag::ExtXTargetDuration { duration } => {
                            if target_duration.is_some() {
                                return Err(Error::DuplicateTag { tag: "EXT-X-TARGETDURATION" });
                            }
                            target_duration = Some(duration);
                        },
                        Tag::ExtInf { duration, title } => {
                            pending = Some((duration, title));
                        },
                        Tag::ExtXVersion { version: parsed } => {
                            if version.is_some() {
                                return Err(Error::DuplicateTag { tag: "EXT-X-VERSION" });
                            }
                            version = Some(parsed);
                        },
                        Tag::ExtXMediaSequence { number } => {
                            media_sequence_number = Some(number);
                        },
                        Tag::ExtXKey { method: _, uri: _ } => {},
                        Tag::ExtXAllowCache => {},
                        Tag::ExtXPlaylistType { playlist_type: parsed } => {
                            playlist_type = Some(parsed);
                        },
                        Tag::ExtXEndList => {},
                        _ => {
                            return Err(Error::InvalidTag);
                        },
                    }
                }
            } else {
                if !check_uri_reference(line.as_str()) {
                    return Err(Error::InvalidUri { line: line.clone() });
                }
                let taken = pending;
                pending = None;
                match taken {
                    None => {
                        return Err(Error::MissingTag { tag: "EXTINF" });
                    },
                    Some((duration, title)) => {
                        let seg = MediaSegment { duration, title, uri: line.clone() };
                        let ghost segv = seg@;
                        segments.push(seg);
                        proof {
                            assert(segments@.map_values(|m: MediaSegment| m@)
                                =~= acc0.segments.push(segv));
                        }
                    },
                }
            }
            proof {
                let acc1 = SpecMediaAcc {
                    target_duration,
                    version,
                    media_sequence_number,
                    playlist_type,
                    pending: view_pending(pending),
                    segments: segments@.map_values(|m: MediaSegment| m@),
                };
                assert(spec_media_line(acc0, linev) == Ok::<SpecMediaAcc, SpecError>(acc1));
            }
            i += 1;
        }
        let target_duration = match target_duration {
            Some(target_duration) => target_duration,
            None => {
                return Err(Error::MissingTag { tag: "EXT-X-TARGETDURATION" });
            },
        };
        Ok(
            MediaPlaylist {
                target_duration,
                media_segments: segments,
                version,
                media_sequence_number,
                playlist_type,
            },
        )
    }
}

} // verus!
