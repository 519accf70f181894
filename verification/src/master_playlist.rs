//! The master playlist parser: a single pass that emits the variant streams
//! referenced by the playlist, and the deterministic best-variant selection
//! that the download pipeline uses.
use crate::decimal::Decimal;
use crate::strutil::char_at;
use crate::strutil::lines_of;
use crate::strutil::split_lines;
use crate::strutil::starts_with;
use crate::strutil::str_eq;
use crate::strutil::str_len;
use crate::strutil::str_starts_with;
use crate::strutil::substring;
use crate::tag::view_opt_str;
use crate::tag::view_opt_strs;
use crate::tag::SpecTag;
use crate::tag::Tag;
use crate::urls::check_uri_reference;
use crate::urls::uri_reference_valid;
use crate::Error;
use crate::SpecError;
use crate::VideoRange;
use vstd::prelude::*;
use vstd::string::StrSliceExecFns;

verus! {

/// A variant stream at the view level.
pub struct SpecVariantStream {
    /// The uri of the stream.
    pub uri: Seq<char>,
    /// The stream bandwidth.
    pub bandwidth: u64,
    /// The average bandwidth.
    pub average_bandwidth: Option<u64>,
    /// The codecs.
    pub codecs: Option<Seq<Seq<char>>>,
    /// The resolution.
    pub resolution: Option<(u64, u64)>,
    /// The frame rate.
    pub frame_rate: Option<Decimal>,
    /// The video range.
    pub video_range: Option<VideoRange>,
    /// The name.
    pub name: Option<Seq<char>>,
}

/// A variant stream
#[derive(Debug, PartialEq, Eq, Clone)]
pub struct VariantStream {
    /// The uri of the stream
    pub uri: String,
    /// The bandwidth of the stream
    pub bandwidth: u64,
    /// The average bandwidth
    pub average_bandwidth: Option<u64>,
    /// The codecs
    pub codecs: Option<Vec<String>>,
    /// The resolution
    pub resolution: Option<(u64, u64)>,
    /// The frame rate
    pub frame_rate: Option<Decimal>,
    /// The video range
    pub video_range: Option<VideoRange>,
    /// The name
    pub name: Option<String>,
}

impl View for VariantStream {
    type V = SpecVariantStream;

    open spec fn view(&self) -> SpecVariantStream {
        SpecVariantStream {
            uri: self.uri@,
            bandwidth: self.bandwidth,
            average_bandwidth: self.average_bandwidth,
            codecs: view_opt_strs(self.codecs),
            resolution: self.resolution,
            frame_rate: self.frame_rate,
            video_range: self.video_range,
            name: view_opt_str(self.name),
        }
    }
}

/// A master playlist at the view level.
pub struct SpecMasterPlaylist {
    /// The variant streams, in playlist order.
    pub variant_streams: Seq<SpecVariantStream>,
}

/// A master playlist
#[derive(Debug, PartialEq, Eq, Clone)]
pub struct MasterPlaylist {
    /// A list of all variant streams
    pub variant_streams: Vec<VariantStream>,
}

impl View for MasterPlaylist {
    type V = SpecMasterPlaylist;

    open spec fn view(&self) -> SpecMasterPlaylist {
        SpecMasterPlaylist {
            variant_streams: self.variant_streams@.map_values(|v: VariantStream| v@),
        }
    }
}

/// A pending EXT-X-STREAM-INF block, at the view level: the attributes of a
/// variant whose URI line is still owed.
pub struct SpecStreamInfPending {
    pub bandwidth: u64,
    pub average_bandwidth: Option<u64>,
    pub codecs: Option<Seq<Seq<char>>>,
    pub resolution: Option<(u64, u64)>,
    pub frame_rate: Option<Decimal>,
    pub video_range: Option<VideoRange>,
    pub name: Option<Seq<char>>,
}

/// The master playlist parser's state between lines, at the view level.
pub struct SpecMasterAcc {
    /// The pending stream-info block, if any.
    pub pending: Option<SpecStreamInfPending>,
    /// The variants emitted so far.
    pub variants: Seq<SpecVariantStream>,
}

/// One body line of a master playlist: empty lines and plain comments are
/// skipped, an `EXT-X-STREAM-INF` tag opens a block, any other tag is
/// invalid here, and a URI line closes the pending block into a variant.
pub open spec fn spec_master_line(acc: SpecMasterAcc, line: Seq<char>) -> Result<
    SpecMasterAcc,
    SpecError,
> {
    if line.len() == 0 {
        Ok(acc)
    } else if line[0] == '#' {
        let body = line.skip(1);
        if starts_with(body, "EXT"@) {
            match crate::tag::spec_parse_tag(body) {
                Err(e) => Err(SpecError::Tag { error: e }),
                Ok(tag) => match tag {
                    SpecTag::StreamInf {
                        bandwidth,
                        average_bandwidth,
                        codecs,
                        resolution,
                        frame_rate,
                        video_range,
                        name,
                    } => {
                        if acc.pending is Some {
                            Err(SpecError::DuplicateTag { tag: "EXT-X-STREAM-INF"@ })
                        } else {
                            Ok(
                                SpecMasterAcc {
                                    pending: Some(
                                        SpecStreamInfPending {
                                            bandwidth,
                                            average_bandwidth,
                                            codecs,
                                            resolution,
                                            frame_rate,
                                            video_range,
                                            name,
                                        },
                                    ),
                                    ..acc
                                },
                            )
                        }
                    },
                    _ => Err(SpecError::InvalidTag),
                },
            }
        } else {
            Ok(acc)
        }
    } else {
        if !uri_reference_valid(line) {
            Err(SpecError::InvalidUri { line })
        } else {
            match acc.pending {
                None => Err(SpecError::MissingTag { tag: "EXT-X-STREAM-INF"@ }),
                Some(p) => Ok(
                    SpecMasterAcc {
                        pending: None,
                        variants: acc.variants.push(
                            SpecVariantStream {
                                uri: line,
                                bandwidth: p.bandwidth,
                                average_bandwidth: p.average_bandwidth,
                                codecs: p.codecs,
                                resolution: p.resolution,
                                frame_rate: p.frame_rate,
                                video_range: p.video_range,
                                name: p.name,
                            },
                        ),
                    },
                ),
            }
        }
    }
}

/// The body lines from index `i` on, folded over `acc`.
pub open spec fn spec_master_fold(lines: Seq<Seq<char>>, i: int, acc: SpecMasterAcc) -> Result<
    SpecMasterAcc,
    SpecError,
>
    decreases lines.len() - i,
{
    if i < 0 || i >= lines.len() {
        Ok(acc)
    } else {
        match spec_master_line(acc, lines[i]) {
            Err(e) => Err(e),
            Ok(a2) => spec_master_fold(lines, i + 1, a2),
        }
    }
}

/// A whole master playlist: the `#EXTM3U` start line and the body fold;
/// each stream-info block must be closed by a URI line by the end.
pub open spec fn spec_parse_master_playlist(input: Seq<char>) -> Result<
    SpecMasterPlaylist,
    SpecError,
> {
    let lines = lines_of(input);
    if lines.len() == 0 {
        Err(SpecError::UnexpectedEof)
    } else if lines[0] != "#EXTM3U"@ {
        Err(SpecError::InvalidStartTag { tag: lines[0] })
    } else {
        match spec_master_fold(lines, 1, SpecMasterAcc { pending: None, variants: Seq::empty() }) {
            Err(e) => Err(e),
            Ok(acc) => {
                if acc.pending is Some {
                    Err(SpecError::MissingTag { tag: "URI"@ })
                } else {
                    Ok(SpecMasterPlaylist { variant_streams: acc.variants })
                }
            },
        }
    }
}

/// An `EXT-X-STREAM-INF` tag that no URI line follows is always refused
/// with `MissingTag`: a parse that ends with a stream-info block still
/// pending never yields a playlist.
pub proof fn lemma_stream_inf_needs_uri(input: Seq<char>)
    requires
        lines_of(input).len() > 0,
        lines_of(input)[0] == "#EXTM3U"@,
        spec_master_fold(
            lines_of(input),
            1,
            (SpecMasterAcc { pending: None, variants: Seq::empty() }),
        ) matches Ok(acc) && acc.pending is Some,
    ensures
        spec_parse_master_playlist(input) == Err::<SpecMasterPlaylist, SpecError>(
            SpecError::MissingTag { tag: "URI"@ },
        ),
{
}

/// The view of a pending EXT-X-STREAM-INF block.
spec fn view_stream_inf_pending(p: Option<StreamInfPending>) -> Option<
    SpecStreamInfPending,
> {
    match p {
        Some(f) => Some(
            SpecStreamInfPending {
                bandwidth: f.bandwidth,
                average_bandwidth: f.average_bandwidth,
                codecs: view_opt_strs(f.codecs),
                resolution: f.resolution,
                frame_rate: f.frame_rate,
                video_range: f.video_range,
                name: view_opt_str(f.name),
            },
        ),
        None => None,
    }
}

/// A pending EXT-X-STREAM-INF block: the attributes of a variant whose URI
/// line is still owed.
struct StreamInfPending {
    bandwidth: u64,
    average_bandwidth: Option<u64>,
    codecs: Option<Vec<String>>,
    resolution: Option<(u64, u64)>,
    frame_rate: Option<Decimal>,
    video_range: Option<VideoRange>,
    name: Option<String>,
}

/// Whether the parse outcome `r` is the view-level outcome `s`.
pub open spec fn master_result_matches(
    r: Result<MasterPlaylist, Error>,
    s: Result<SpecMasterPlaylist, SpecError>,
) -> bool {
    match r {
        Ok(p) => s matches Ok(sp) && p@ == sp,
        Err(e) => s matches Err(se) && e@ == se,
    }
}

impl MasterPlaylist {
    /// Parses a whole master playlist document.
    ///
    /// The result is exactly what the playlist grammar assigns to the text:
    /// the required `#EXTM3U` start line, then `EXT-X-STREAM-INF` tags, each
    /// immediately followed by the URI line of that variant.
    pub fn from_str(input: &str) -> (r: Result<MasterPlaylist, Error>)
        ensures
            master_result_matches(r, spec_parse_master_playlist(input@)),
    {
        let lines = split_lines(input);
        let ghost lv = lines@.map_values(|l: String| l@);
        if lines.len() == 0 {
            return Err(Error::UnexpectedEof);
        }
        if !str_eq(lines[0].as_str(), "#EXTM3U") {
            return Err(Error::InvalidStartTag { tag: lines[0].clone() });
        }
        let mut pending: Option<StreamInfPending> = None;
        let mut variants: Vec<VariantStream> = Vec::new();
        let mut i: usize = 1;
        proof {
            assert(variants@.map_values(|v: VariantStream| v@) =~= Seq::<
                SpecVariantStream,
            >::empty());
        }
        while i < lines.len()
            invariant
                1 <= i <= lines@.len(),
                lv == lines@.map_values(|l: String| l@),
                lv == lines_of(input@),
                lv.len() > 0,
                lv[0] == "#EXTM3U"@,
                spec_master_fold(
                    lv,
                    i as int,
                    (SpecMasterAcc {
                        pending: view_stream_inf_pending(pending),
                        variants: variants@.map_values(|v: VariantStream| v@),
                    }),
                ) == spec_master_fold(
                    lv,
                    1,
                    (SpecMasterAcc { pending: None, variants: Seq::empty() }),
                ),
            decreases lines@.len() - i,
        {
            let ghost acc0 = SpecMasterAcc {
                pending: view_stream_inf_pending(pending),
                variants: variants@.map_values(|v: VariantStream| v@),
            };
            let line: &String = &lines[i];
            let ghost linev = lv[i as int];
            proof {
                assert(linev == line@);
            }
            let n = str_len(line.as_str());
            if n == 0 {
                // An empty line is skipped.
            } else if char_at(line.as_str(), 0) == '#' {
                let body = substring(line.as_str(), 1, n);
                proof {
                    assert(body@ =~= linev.skip(1));
                }
                if str_starts_with(body.as_str(), "EXT") {
                    let tag = match Tag::parse(body.as_str()) {
                        Ok(tag) => tag,
                        Err(error) => {
                            return Err(Error::Tag { error });
                        },
                    };
                    match tag {
                        Tag::ExtXStreamInf {
                            bandwidth,
                            average_bandwidth,
                            codecs,
                            resolution,
                            frame_rate,
                            video_range,
                            name,
                        } => {
                            if pending.is_some() {
                                return Err(Error::DuplicateTag { tag: "EXT-X-STREAM-INF" });
                            }
                            pending = Some(
                                StreamInfPending {
                                    bandwidth,
                                    average_bandwidth,
                                    codecs,
                                    resolution,
                                    frame_rate,
                                    video_range,
                                    name,
                                },
                            );
                        },
                        _ => {
                            return Err(Error::InvalidTag);
                        },
                    }
                }
            } else {
                if !check_uri_reference(line.as_str()) {
                    return Err(Error::InvalidUri { line: line.clone() });
                }
                let taken = pending;
                pending = None;
                match taken {
                    None => {
                        return Err(Error::MissingTag { tag: "EXT-X-STREAM-INF" });
                    },
                    Some(p) => {
                        let var = VariantStream {
                            uri: line.clone(),
                            bandwidth: p.bandwidth,
                            average_bandwidth: p.average_bandwidth,
                            codecs: p.codecs,
                            resolution: p.resolution,
                            frame_rate: p.frame_rate,
                            video_range: p.video_range,
                            name: p.name,
                        };
                        let ghost varv = var@;
                        variants.push(var);
                        proof {
                            assert(variants@.map_values(|v: VariantStream| v@)
                                =~= acc0.variants.push(varv));
                        }
                    },
                }
            }
            proof {
                let acc1 = SpecMasterAcc {
                    pending: view_stream_inf_pending(pending),
                    variants: variants@.map_values(|v: VariantStream| v@),
                };
                assert(spec_master_line(acc0, linev) == Ok::<SpecMasterAcc, SpecError>(acc1));
            }
            i += 1;
        }
        if pending.is_some() {
            // A stream-info block with no following URI line.
            return Err(Error::MissingTag { tag: "URI" });
        }
        Ok(MasterPlaylist { variant_streams: variants })
    }

    /// The index of the best variant: the one with the greatest bandwidth,
    /// the first declared winning any tie.
    ///
    /// Returns `None` exactly when the playlist has no variants.
    pub fn best_variant(&self) -> (r: Option<usize>)
        ensures
            match r {
                Some(k) => {
                    &&& 0 <= k < self@.variant_streams.len()
                    &&& forall|j: int|
                        0 <= j < self@.variant_streams.len()
                            ==> #[trigger] self@.variant_streams[j].bandwidth
                            <= self@.variant_streams[k as int].bandwidth
                    &&& forall|j: int|
                        0 <= j < k ==> #[trigger] self@.variant_streams[j].bandwidth
                            < self@.variant_streams[k as int].bandwidth
                },
                None => self@.variant_streams.len() == 0,
            },
    {
        if self.variant_streams.len() == 0 {
            return None;
        }
        let mut best: usize = 0;
        let mut i: usize = 1;
        while i < self.variant_streams.len()
            invariant
                0 <= best < i <= self.variant_streams@.len(),
                forall|j: int|
                    0 <= j < i ==> #[trigger] self.variant_streams@[j].bandwidth
                        <= self.variant_streams@[best as int].bandwidth,
                forall|j: int|
                    0 <= j < best ==> #[trigger] self.variant_streams@[j].bandwidth
                        < self.variant_streams@[best as int].bandwidth,
            decreases self.variant_streams@.len() - i,
        {
            if self.variant_streams[i].bandwidth > self.variant_streams[best].bandwidth {
                best = i;
            }
            i += 1;
        }
        proof {
            assert(forall|j: int|
                0 <= j < self@.variant_streams.len() ==> self@.variant_streams[j]
                    == self.variant_streams@[j]@);
        }
        Some(best)
    }
}

} // verus!
