//! The decision logic of one download attempt: a state machine from events
//! to actions and progress messages. The surrounding runtime performs each
//! action (filesystem checks, locking, fetches, concatenation, the remux
//! subprocess) and feeds the outcome back as the next event; every decision
//! between those steps is made here.
use crate::ffmpeg_time::ffmpeg_time_secs;
use crate::ffmpeg_time::ffmpeg_time_valid;
use crate::ffmpeg_time::parse_ffmpeg_time;
use crate::master_playlist::MasterPlaylist;
use crate::master_playlist::SpecVariantStream;
use crate::media_playlist::lemma_media_playlist_uris_valid;
use crate::media_playlist::spec_parse_media_playlist;
use crate::media_playlist::MediaPlaylist;
use crate::media_playlist::SpecMediaPlaylist;
use crate::paths::join_dir;
use crate::paths::spec_file_name;
use crate::paths::url_to_file_name;
use crate::paths::DownloadPaths;
use crate::strutil::ends_with;
use crate::strutil::str_ends_with;
use crate::urls::join_url;
use crate::urls::parse_url;
use crate::urls::uri_path;
use crate::urls::uri_path_str;
use crate::urls::uri_reference_valid;
use crate::urls::url_join;
use crate::urls::url_parse;
use vstd::prelude::*;
use vstd::string::StringExecFns;

verus! {

/// A message about the state of a download.
#[derive(Debug, Clone)]
pub enum DownloadHlsMessage {
    /// A fatal error occured
    Error {
        /// A description of the failure
        error: String,
    },
    /// The destination already exists; nothing was done.
    AlreadyDownloaded,
    /// Downloaded the given media playlist
    DownloadedMediaPlaylist {
        /// The playlist the download follows
        media_playlist: MediaPlaylist,
    },
    /// Downloaded a single media segment
    DownloadedMediaSegment,
    /// Downloaded all media segments
    DownloadedAllMediaSegments,
    /// Concatenated a single media segment
    ConcatenatedMediaSegment,
    /// Concatenated all media segments
    ConcatenatedAllMediaSegments,
    /// The remuxer is now at the specified out time, in whole seconds.
    FfmpegProgress {
        /// The elapsed output time, in seconds
        out_time: u64,
    },
    /// The download completed successfully.
    ///
    /// If this is not received, assume the download failed.
    Done,
}

/// One fetch job: a resolved segment URL and the file it is saved to.
#[derive(Debug, PartialEq, Eq, Clone)]
pub struct SegmentJob {
    /// The resolved URL to fetch.
    pub url: String,
    /// The file to write.
    pub path: String,
}

/// What the runtime must do next.
#[derive(Debug)]
pub enum Action {
    /// Check whether the destination file exists.
    CheckDestination {
        /// The destination path
        path: String,
    },
    /// Create the temp directory and lock file, and try a non-blocking
    /// exclusive lock.
    PrepareAndLock {
        /// The temp segment directory
        temp_dir: String,
        /// The lock file inside it
        lock_file: String,
    },
    /// Fetch a document as text.
    FetchText {
        /// The URL to fetch
        url: String,
    },
    /// Report which of the given segment files already exist.
    ProbeSegments {
        /// The per-segment paths, in playlist order
        paths: Vec<String>,
    },
    /// Fetch the given segments, in any order, reporting each completion.
    FetchSegments {
        /// The segments still missing
        jobs: Vec<SegmentJob>,
    },
    /// Append the sources, in order, into the output file, then flush and
    /// sync it.
    Concatenate {
        /// The segment files, in playlist order
        sources: Vec<String>,
        /// The concatenated file
        output: String,
    },
    /// Run the copy-codec remux subprocess, reporting progress lines, the
    /// exit status, and the end of its output.
    Remux {
        /// The concatenated input file
        input: String,
        /// The remuxed output file
        output: String,
    },
    /// Remove a file, best effort.
    RemoveFile {
        /// The file to remove
        path: String,
    },
    /// Atomically rename the finished file onto the destination.
    Rename {
        /// The remuxed temp file
        from: String,
        /// The destination
        to: String,
    },
    /// Unlock and release the lock file, and remove the temp directory.
    Release {
        /// The lock file
        lock_file: String,
        /// The temp segment directory
        temp_dir: String,
    },
    /// Wait for the next event; nothing new to do.
    Wait,
    /// The session is over; no further events are expected.
    Finished,
}

/// What the runtime reports back after performing an action.
#[derive(Debug)]
pub enum Event {
    /// Whether the destination file exists.
    DestinationExists {
        /// `true` if the file is already there
        exists: bool,
    },
    /// Whether the exclusive lock was acquired.
    Locked {
        /// `true` if this session now holds the lock
        acquired: bool,
    },
    /// The text of a fetched document, or a failure description.
    FetchedText {
        /// The fetched body, or the error
        result: Result<String, String>,
    },
    /// Which of the probed segment files already exist, in the same order.
    SegmentsProbed {
        /// One flag per probed path
        present: Vec<bool>,
    },
    /// One segment fetch finished.
    SegmentFetched {
        /// The outcome of that fetch
        result: Result<(), String>,
    },
    /// The concatenation finished.
    Concatenated {
        /// The outcome
        result: Result<(), String>,
    },
    /// The remuxer printed a progress record with this out-time field.
    RemuxProgress {
        /// The raw `HH:MM:SS.micros` text
        out_time: String,
    },
    /// The remux subprocess exited.
    RemuxExited {
        /// `true` if the exit status was success
        success: bool,
    },
    /// The remuxer's output stream ended.
    RemuxEnded,
    /// The rename onto the destination finished.
    Renamed {
        /// The outcome
        result: Result<(), String>,
    },
    /// The unlock and temp-directory removal finished.
    Released {
        /// The outcome
        result: Result<(), String>,
    },
    /// The best-effort file removal finished.
    FileRemoved,
}

/// Where one download attempt stands.
#[derive(Debug, PartialEq, Eq, Clone, Copy)]
pub enum Phase {
    /// Checking whether the destination already exists.
    Guard,
    /// Acquiring the per-destination lock.
    Locking,
    /// Fetching the document at the source URL.
    FetchingPlaylist,
    /// Fetching the selected variant's media playlist.
    FetchingMedia,
    /// Asking which segment files are already on disk.
    Probing,
    /// Waiting for the remaining segment fetches.
    Downloading {
        /// How many fetches are still outstanding
        remaining: usize,
    },
    /// Waiting for the concatenation.
    Concatenating,
    /// Waiting for remux progress and exit.
    Remuxing {
        /// Whether a remux error has been seen
        failed: bool,
    },
    /// A failure happened; the temp output file is being removed.
    CleaningUp,
    /// Waiting for the rename onto the destination.
    Renaming,
    /// Waiting for the lock release and temp-directory removal.
    Releasing,
    /// The download finished; the destination is in place.
    Done,
    /// The download failed; the temp directory is kept for resumption.
    Failed,
}

/// What one step decided: the next action and the progress messages to
/// emit, in order.
#[derive(Debug)]
pub struct Step {
    /// What the runtime must do next.
    pub action: Action,
    /// The progress messages this step emits.
    pub messages: Vec<DownloadHlsMessage>,
}

/// One download attempt: its phase and the data its decisions rest on.
#[derive(Debug)]
pub struct DownloadSession {
    /// Where the attempt stands.
    pub phase: Phase,
    /// The normalized source URL.
    pub source_url: String,
    /// The URL the media playlist was fetched from: the base that segment
    /// URIs resolve against.
    pub media_url: String,
    /// The on-disk layout derived from the destination.
    pub paths: DownloadPaths,
    /// The resolved segment URLs, in playlist order.
    pub segment_urls: Vec<String>,
    /// The per-segment files, in playlist order.
    pub segment_paths: Vec<String>,
    /// The concatenated file.
    pub concat_path: String,
    /// The failure being cleaned up, if any.
    pub error: Option<String>,
}

/// Whether `k` names the best variant: the greatest bandwidth, the first
/// declared winning any tie.
pub open spec fn is_best_variant(vs: Seq<SpecVariantStream>, k: int) -> bool {
    &&& 0 <= k < vs.len()
    &&& forall|j: int| 0 <= j < vs.len() ==> #[trigger] vs[j].bandwidth <= vs[k].bandwidth
    &&& forall|j: int| 0 <= j < k ==> #[trigger] vs[j].bandwidth < vs[k].bandwidth
}

/// Whether every segment of `p` may be downloaded: its URI path ends in the
/// `.ts` convention and it resolves against `base`.
pub open spec fn segments_fetchable(p: SpecMediaPlaylist, base: Seq<char>) -> bool {
    forall|k: int|
        0 <= k < p.media_segments.len() ==> {
            &&& ends_with(uri_path(#[trigger] p.media_segments[k].uri), ".ts"@)
            &&& url_join(base, p.media_segments[k].uri) is Some
        }
}

/// The resolved URL of segment `k` of `p` against `base`.
pub open spec fn segment_url_of(p: SpecMediaPlaylist, base: Seq<char>, k: int) -> Seq<char> {
    url_join(base, p.media_segments[k].uri)->Some_0
}

/// The file a download keeps in `temp_dir` for the URL `u`.
pub open spec fn file_for_url(temp_dir: Seq<char>, u: Seq<char>) -> Seq<char> {
    temp_dir + "/"@ + spec_file_name(u, 0, Seq::empty())
}

/// The step a failure takes: the partially-written temp output file is
/// removed, and nothing else; in particular the temp segment directory is
/// kept, so a later attempt can resume.
pub open spec fn fail_step(pre: DownloadSession, post: DownloadSession, r: Step) -> bool {
    &&& post.phase is CleaningUp
    &&& (r.action matches Action::RemoveFile { path } && path@ == pre.paths.temp_out@)
    &&& r.messages@.len() == 0
    &&& post.paths == pre.paths
    &&& post.error is Some
}

/// The step a terminal failure takes: one error message, and the session is
/// over.
pub open spec fn failed_step(post: DownloadSession, r: Step) -> bool {
    &&& post.phase is Failed
    &&& r.action is Finished
    &&& r.messages@.len() == 1
    &&& r.messages@[0] is Error
}

/// The plan for the playlist `p` fetched from `base` into `pre`'s layout:
/// the session now knows each segment's resolved URL and file, announces
/// the playlist, and asks which files are already there.
pub open spec fn planned_step(
    pre: DownloadSession,
    text: Seq<char>,
    base: Seq<char>,
    post: DownloadSession,
    r: Step,
) -> bool {
    match spec_parse_media_playlist(text) {
        Err(_) => fail_step(pre, post, r),
        Ok(p) => {
            if !segments_fetchable(p, base) {
                fail_step(pre, post, r)
            } else {
                &&& post.phase is Probing
                &&& post.paths == pre.paths
                &&& post.media_url@ == base
                &&& post.segment_urls@.len() == p.media_segments.len()
                &&& post.segment_paths@.len() == p.media_segments.len()
                &&& forall|k: int|
                    0 <= k < p.media_segments.len() ==> #[trigger] post.segment_urls@[k]@
                        == segment_url_of(p, base, k)
                &&& forall|k: int|
                    0 <= k < p.media_segments.len() ==> #[trigger] post.segment_paths@[k]@
                        == file_for_url(pre.paths.temp_dir@, segment_url_of(p, base, k))
                &&& post.concat_path@ == file_for_url(pre.paths.temp_dir@, base)
                &&& (r.action matches Action::ProbeSegments { paths } && strings_view(paths@)
                    == strings_view(post.segment_paths@))
                &&& r.messages@.len() == 1
                &&& (r.messages@[0] matches DownloadHlsMessage::DownloadedMediaPlaylist {
                    media_playlist,
                } && media_playlist@ == p)
            }
        },
    }
}

/// The jobs for the segments not yet on disk, in playlist order: resolved
/// URL and target file of each index whose probe came back absent.
pub open spec fn missing_jobs(
    urls: Seq<Seq<char>>,
    paths: Seq<Seq<char>>,
    present: Seq<bool>,
    i: int,
) -> Seq<(Seq<char>, Seq<char>)>
    decreases urls.len() - i,
{
    if i < 0 || i >= urls.len() || i >= paths.len() || i >= present.len() {
        Seq::empty()
    } else if present[i] {
        missing_jobs(urls, paths, present, i + 1)
    } else {
        seq![(urls[i], paths[i])] + missing_jobs(urls, paths, present, i + 1)
    }
}

/// The views of a list of strings.
pub open spec fn strings_view(v: Seq<String>) -> Seq<Seq<char>> {
    v.map_values(|s: String| s@)
}

/// The views of a list of segment jobs.
pub open spec fn jobs_view(v: Seq<SegmentJob>) -> Seq<(Seq<char>, Seq<char>)> {
    v.map_values(|j: SegmentJob| (j.url@, j.path@))
}

/// What one step of the machine does, for every phase and event: the
/// machine's full specification.
pub open spec fn step_spec(pre: DownloadSession, event: Event, post: DownloadSession, r: Step) -> bool {
    match pre.phase {
        Phase::Guard => match event {
            Event::DestinationExists { exists } => {
                if exists {
                    // The idempotent short-circuit: the file is already
                    // there, so the session ends at once, with no fetch, no
                    // lock and no temp state touched.
                    &&& post.phase is Done
                    &&& r.action is Finished
                    &&& r.messages@.len() == 1
                    &&& r.messages@[0] is AlreadyDownloaded
                } else {
                    &&& post.phase is Locking
                    &&& post.paths == pre.paths
                    &&& (r.action matches Action::PrepareAndLock { temp_dir, lock_file }
                        && temp_dir@ == pre.paths.temp_dir@ && lock_file@ == pre.paths.lock_file@)
                    &&& r.messages@.len() == 0
                }
            },
            _ => failed_step(post, r),
        },
        Phase::Locking => match event {
            Event::Locked { acquired } => {
                if acquired {
                    &&& post.phase is FetchingPlaylist
                    &&& post.paths == pre.paths
                    &&& (r.action matches Action::FetchText { url } && url@ == pre.source_url@)
                    &&& r.messages@.len() == 0
                } else {
                    // Lock contention is a normal, reportable failure:
                    // another attempt owns the destination, so nothing of
                    // the shared temp state is touched.
                    failed_step(post, r)
                }
            },
            _ => failed_step(post, r),
        },
        Phase::FetchingPlaylist => match event {
            Event::FetchedText { result } => match result {
                Ok(text) => {
                    match crate::master_playlist::spec_parse_master_playlist(text@) {
                        Ok(m) => {
                            if m.variant_streams.len() > 0 {
                                exists|k: int|
                                    {
                                        &&& #[trigger] is_best_variant(m.variant_streams, k)
                                        &&& match url_join(
                                            pre.source_url@,
                                            m.variant_streams[k].uri,
                                        ) {
                                            Some(u) => {
                                                &&& post.phase is FetchingMedia
                                                &&& post.paths == pre.paths
                                                &&& post.media_url@ == u
                                                &&& (r.action matches Action::FetchText { url }
                                                    && url@ == u)
                                                &&& r.messages@.len() == 0
                                            },
                                            None => fail_step(pre, post, r),
                                        }
                                    }
                            } else {
                                planned_step(pre, text@, pre.media_url@, post, r)
                            }
                        },
                        Err(_) => planned_step(pre, text@, pre.media_url@, post, r),
                    }
                },
                Err(_) => fail_step(pre, post, r),
            },
            _ => failed_step(post, r),
        },
        Phase::FetchingMedia => match event {
            Event::FetchedText { result } => match result {
                Ok(text) => planned_step(pre, text@, pre.media_url@, post, r),
                Err(_) => fail_step(pre, post, r),
            },
            _ => failed_step(post, r),
        },
        Phase::Probing => match event {
            Event::SegmentsProbed { present } => {
                if present@.len() != pre.segment_paths@.len() {
                    fail_step(pre, post, r)
                } else {
                    let jobs = missing_jobs(
                        strings_view(pre.segment_urls@),
                        strings_view(pre.segment_paths@),
                        present@,
                        0,
                    );
                    let skipped = (present@.len() - jobs.len()) as int;
                    &&& post.paths == pre.paths
                    &&& forall|j: int|
                        0 <= j < skipped ==> #[trigger] r.messages@[j] is DownloadedMediaSegment
                    &&& if jobs.len() == 0 {
                        // Everything is already on disk: a finished probe
                        // goes straight to concatenation.
                        &&& post.phase is Concatenating
                        &&& r.messages@.len() == skipped + 1
                        &&& r.messages@[skipped] is DownloadedAllMediaSegments
                        &&& (r.action matches Action::Concatenate { sources, output }
                            && strings_view(sources@) == strings_view(pre.segment_paths@)
                            && output@ == pre.concat_path@)
                    } else {
                        // Only the absent segments are fetched again: this
                        // is what makes a retry resume instead of starting
                        // over.
                        &&& post.phase matches Phase::Downloading { remaining } && remaining
                            == jobs.len()
                        &&& r.messages@.len() == skipped
                        &&& (r.action matches Action::FetchSegments { jobs: js } && jobs_view(js@)
                            == jobs)
                        &&& post.segment_paths == pre.segment_paths
                        &&& post.concat_path == pre.concat_path
                    }
                }
            },
            _ => failed_step(post, r),
        },
        Phase::Downloading { remaining } => match event {
            Event::SegmentFetched { result } => match result {
                Ok(_) => {
                    if remaining <= 1 {
                        &&& post.phase is Concatenating
                        &&& post.paths == pre.paths
                        &&& r.messages@.len() == 2
                        &&& r.messages@[0] is DownloadedMediaSegment
                        &&& r.messages@[1] is DownloadedAllMediaSegments
                        &&& (r.action matches Action::Concatenate { sources, output }
                            && strings_view(sources@) == strings_view(pre.segment_paths@)
                            && output@ == pre.concat_path@)
                    } else {
                        &&& post.phase matches Phase::Downloading { remaining: rem2 } && rem2
                            == remaining - 1
                        &&& post.paths == pre.paths
                        &&& post.segment_paths == pre.segment_paths
                        &&& post.concat_path == pre.concat_path
                        &&& r.messages@.len() == 1
                        &&& r.messages@[0] is DownloadedMediaSegment
                        &&& r.action is Wait
                    }
                },
                Err(_) => fail_step(pre, post, r),
            },
            _ => failed_step(post, r),
        },
        Phase::Concatenating => match event {
            Event::Concatenated { result } => match result {
                Ok(_) => {
                    let n = pre.segment_paths@.len() as int;
                    &&& post.phase matches Phase::Remuxing { failed } && failed == false
                    &&& post.paths == pre.paths
                    &&& (r.action matches Action::Remux { input, output } && input@
                        == pre.concat_path@ && output@ == pre.paths.temp_out@)
                    &&& r.messages@.len() == n + 1
                    &&& forall|j: int| 0 <= j < n ==> #[trigger] r.messages@[j] is ConcatenatedMediaSegment
                    &&& r.messages@[n] is ConcatenatedAllMediaSegments
                },
                Err(_) => fail_step(pre, post, r),
            },
            _ => failed_step(post, r),
        },
        Phase::Remuxing { failed } => match event {
            Event::RemuxProgress { out_time } => {
                if ffmpeg_time_valid(out_time@) && ffmpeg_time_secs(out_time@) <= u64::MAX {
                    &&& post.phase matches Phase::Remuxing { failed: f2 } && f2 == failed
                    &&& post.paths == pre.paths
                    &&& r.action is Wait
                    &&& r.messages@.len() == 1
                    &&& (r.messages@[0] matches DownloadHlsMessage::FfmpegProgress { out_time: t }
                        && t == ffmpeg_time_secs(out_time@))
                } else {
                    // An unreadable progress record marks the run failed,
                    // as a remux error would, and the stream is drained on.
                    &&& post.phase matches Phase::Remuxing { failed: f2 } && f2 == true
                    &&& post.paths == pre.paths
                    &&& r.action is Wait
                    &&& r.messages@.len() == 0
                }
            },
            Event::RemuxExited { success } => {
                &&& post.phase matches Phase::Remuxing { failed: f2 } && f2 == (failed || !success)
                &&& post.paths == pre.paths
                &&& r.action is Wait
                &&& r.messages@.len() == 0
            },
            Event::RemuxEnded => {
                if failed {
                    // The remux failed: the temp output is removed and the
                    // destination is never created.
                    fail_step(pre, post, r)
                } else {
                    &&& post.phase is Renaming
                    &&& post.paths == pre.paths
                    &&& (r.action matches Action::Rename { from, to } && from@
                        == pre.paths.temp_out@ && to@ == pre.paths.destination@)
                    &&& r.messages@.len() == 0
                }
            },
            _ => failed_step(post, r),
        },
        Phase::CleaningUp => match event {
            Event::FileRemoved => failed_step(post, r),
            _ => failed_step(post, r),
        },
        Phase::Renaming => match event {
            Event::Renamed { result } => match result {
                Ok(_) => {
                    &&& post.phase is Releasing
                    &&& post.paths == pre.paths
                    &&& (r.action matches Action::Release { lock_file, temp_dir } && lock_file@
                        == pre.paths.lock_file@ && temp_dir@ == pre.paths.temp_dir@)
                    &&& r.messages@.len() == 0
                },
                Err(_) => fail_step(pre, post, r),
            },
            _ => failed_step(post, r),
        },
        Phase::Releasing => match event {
            Event::Released { result } => match result {
                Ok(_) => {
                    &&& post.phase is Done
                    &&& r.action is Finished
                    &&& r.messages@.len() == 1
                    &&& r.messages@[0] is Done
                },
                // The destination is already in place, so a release error
                // must not remove anything: it only reports.
                Err(_) => failed_step(post, r),
            },
            _ => failed_step(post, r),
        },
        Phase::Done => {
            &&& post == pre
            &&& r.action is Finished
            &&& r.messages@.len() == 0
        },
        Phase::Failed => {
            &&& post == pre
            &&& r.action is Finished
            &&& r.messages@.len() == 0
        },
    }
}

/// Idempotence: when the destination already exists, the session's first
/// step ends it at once, with no fetch, no lock and no temp state touched.
pub proof fn lemma_existing_destination_short_circuits(
    pre: DownloadSession,
    post: DownloadSession,
    r: Step,
)
    requires
        pre.phase is Guard,
        step_spec(pre, (Event::DestinationExists { exists: true }), post, r),
    ensures
        post.phase is Done,
        r.action is Finished,
        r.messages@.len() == 1 && r.messages@[0] is AlreadyDownloaded,
{
}

/// Mutual exclusion: when the per-destination lock is held elsewhere, the
/// session fails fast with an error report, touching nothing on disk.
pub proof fn lemma_lock_contention_fails_fast(
    pre: DownloadSession,
    post: DownloadSession,
    r: Step,
)
    requires
        pre.phase is Locking,
        step_spec(pre, (Event::Locked { acquired: false }), post, r),
    ensures
        post.phase is Failed,
        r.action is Finished,
        r.messages@.len() == 1 && r.messages@[0] is Error,
{
}

/// Resumability: a probe that finds some segment files already on disk
/// leads to fetching exactly the absent ones, in playlist order.
pub proof fn lemma_resume_fetches_only_missing(
    pre: DownloadSession,
    present: Vec<bool>,
    post: DownloadSession,
    r: Step,
)
    requires
        pre.phase is Probing,
        present@.len() == pre.segment_paths@.len(),
        step_spec(pre, (Event::SegmentsProbed { present }), post, r),
    ensures
        r.action matches Action::FetchSegments { jobs } ==> jobs_view(jobs@) == missing_jobs(
            strings_view(pre.segment_urls@),
            strings_view(pre.segment_paths@),
            present@,
            0,
        ),
{
}

/// Failure cleanup: the destination is only ever the target of the one
/// rename that a clean remux earns; every other step leaves it alone, and a
/// failed remux removes the temp output instead.
pub proof fn lemma_rename_only_after_clean_remux(
    pre: DownloadSession,
    event: Event,
    post: DownloadSession,
    r: Step,
)
    requires
        step_spec(pre, event, post, r),
    ensures
        r.action matches Action::Rename { from, to } ==> {
            &&& pre.phase matches Phase::Remuxing { failed } && failed == false
            &&& event is RemuxEnded
            &&& to@ == pre.paths.destination@
            &&& from@ == pre.paths.temp_out@
        },
{
}

/// Copies a list of strings, keeping every character.
fn clone_strings(v: &Vec<String>) -> (r: Vec<String>)
    ensures
        strings_view(r@) == strings_view(v@),
        r@.len() == v@.len(),
        forall|j: int| 0 <= j < v@.len() ==> #[trigger] r@[j]@ == v@[j]@,
{
    let mut r: Vec<String> = Vec::new();
    let mut i: usize = 0;
    while i < v.len()
        invariant
            0 <= i <= v@.len(),
            r@.len() == i,
            forall|j: int| 0 <= j < i ==> #[trigger] r@[j]@ == v@[j]@,
        decreases v@.len() - i,
    {
        r.push(v[i].clone());
        i += 1;
    }
    proof {
        assert(strings_view(r@) =~= strings_view(v@));
    }
    r
}

impl DownloadSession {
    /// The data the machine's decisions rest on stays consistent.
    pub open spec fn wf(self) -> bool {
        &&& self.paths.wf()
        &&& self.segment_urls@.len() == self.segment_paths@.len()
    }

    /// Opens a download attempt: the source URL must parse as an absolute
    /// URL, and the first action checks the destination.
    pub fn new(url: &str, destination: &str) -> (r: Result<(DownloadSession, Action), String>)
        ensures
            match r {
                Ok((s, a)) => {
                    &&& url_parse(url@) is Some
                    &&& s.wf()
                    &&& s.phase is Guard
                    &&& s.source_url@ == url_parse(url@)->Some_0
                    &&& s.media_url@ == url_parse(url@)->Some_0
                    &&& s.paths.destination@ == destination@
                    &&& s.paths.wf()
                    &&& (a matches Action::CheckDestination { path } && path@ == destination@)
                },
                Err(_) => url_parse(url@) is None,
            },
    {
        let normalized = match parse_url(url) {
            Some(u) => u,
            None => {
                return Err("invalid url".to_owned());
            },
        };
        let paths = DownloadPaths::new(destination);
        let action = Action::CheckDestination { path: paths.destination.clone() };
        let session = DownloadSession {
            phase: Phase::Guard,
            source_url: normalized.clone(),
            media_url: normalized,
            paths,
            segment_urls: Vec::new(),
            segment_paths: Vec::new(),
            concat_path: String::new(),
            error: None,
        };
        Ok((session, action))
    }

    /// Takes one event and decides the next action and the messages to
    /// emit. The whole behaviour is `step_spec`.
    pub fn step(&mut self, event: Event) -> (r: Step)
        requires
            old(self).wf(),
        ensures
            final(self).wf(),
            step_spec(*old(self), event, *final(self), r),
    {
        let phase = self.phase;
        match phase {
            Phase::Guard => match event {
                Event::DestinationExists { exists } => {
                    if exists {
                        self.phase = Phase::Done;
                        let mut messages = Vec::new();
                        messages.push(DownloadHlsMessage::AlreadyDownloaded);
                        Step { action: Action::Finished, messages }
                    } else {
                        self.phase = Phase::Locking;
                        Step {
                            action: Action::PrepareAndLock {
                                temp_dir: self.paths.temp_dir.clone(),
                                lock_file: self.paths.lock_file.clone(),
                            },
                            messages: Vec::new(),
                        }
                    }
                },
                _ => self.protocol_failure(),
            },
            Phase::Locking => match event {
                Event::Locked { acquired } => {
                    if acquired {
                        self.phase = Phase::FetchingPlaylist;
                        Step {
                            action: Action::FetchText { url: self.source_url.clone() },
                            messages: Vec::new(),
                        }
                    } else {
                        self.phase = Phase::Failed;
                        let mut messages = Vec::new();
                        messages.push(
                            DownloadHlsMessage::Error {
                                error: "download already in progress".to_owned(),
                            },
                        );
                        Step { action: Action::Finished, messages }
                    }
                },
                _ => self.protocol_failure(),
            },
            Phase::FetchingPlaylist => match event {
                Event::FetchedText { result } => match result {
                    Ok(text) => {
                        match MasterPlaylist::from_str(text.as_str()) {
                            Ok(master) => {
                                match master.best_variant() {
                                    Some(k) => {
                                        proof {
                                            assert(is_best_variant(
                                                master@.variant_streams,
                                                k as int,
                                            ));
                                        }
                                        let uri = master.variant_streams[k].uri.clone();
                                        match join_url(self.source_url.as_str(), uri.as_str()) {
                                            Some(variant_url) => {
                                                self.phase = Phase::FetchingMedia;
                                                self.media_url = variant_url.clone();
                                                Step {
                                                    action: Action::FetchText { url: variant_url },
                                                    messages: Vec::new(),
                                                }
                                            },
                                            None => self.fail("invalid variant stream url"),
                                        }
                                    },
                                    None => self.handle_media_text(text.as_str()),
                                }
                            },
                            Err(_) => self.handle_media_text(text.as_str()),
                        }
                    },
                    Err(error) => self.fail_with(error),
                },
                _ => self.protocol_failure(),
            },
            Phase::FetchingMedia => match event {
                Event::FetchedText { result } => match result {
                    Ok(text) => self.handle_media_text(text.as_str()),
                    Err(error) => self.fail_with(error),
                },
                _ => self.protocol_failure(),
            },
            Phase::Probing => match event {
                Event::SegmentsProbed { present } => {
                    if present.len() != self.segment_paths.len() {
                        self.fail("segment probe did not match the playlist")
                    } else {
                        self.plan_fetches(present)
                    }
                },
                _ => self.protocol_failure(),
            },
            Phase::Downloading { remaining } => {
                match event {
                    Event::SegmentFetched { result } => match result {
                        Ok(_) => {
                            if remaining <= 1 {
                                self.phase = Phase::Concatenating;
                                let mut messages = Vec::new();
                                messages.push(DownloadHlsMessage::DownloadedMediaSegment);
                                messages.push(DownloadHlsMessage::DownloadedAllMediaSegments);
                                Step {
                                    action: Action::Concatenate {
                                        sources: clone_strings(&self.segment_paths),
                                        output: self.concat_path.clone(),
                                    },
                                    messages,
                                }
                            } else {
                                self.phase = Phase::Downloading { remaining: remaining - 1 };
                                let mut messages = Vec::new();
                                messages.push(DownloadHlsMessage::DownloadedMediaSegment);
                                Step { action: Action::Wait, messages }
                            }
                        },
                        Err(error) => self.fail_with(error),
                    },
                    _ => self.protocol_failure(),
                }
            },
            Phase::Concatenating => match event {
                Event::Concatenated { result } => match result {
                    Ok(_) => {
                        self.phase = Phase::Remuxing { failed: false };
                        let n = self.segment_paths.len();
                        let mut messages = Vec::new();
                        let mut j: usize = 0;
                        while j < n
                            invariant
                                0 <= j <= n,
                                messages@.len() == j,
                                forall|i: int|
                                    0 <= i < j ==> #[trigger] messages@[i]
                                        is ConcatenatedMediaSegment,
                            decreases n - j,
                        {
                            messages.push(DownloadHlsMessage::ConcatenatedMediaSegment);
                            j += 1;
                        }
                        messages.push(DownloadHlsMessage::ConcatenatedAllMediaSegments);
                        Step {
                            action: Action::Remux {
                                input: self.concat_path.clone(),
                                output: self.paths.temp_out.clone(),
                            },
                            messages,
                        }
                    },
                    Err(error) => self.fail_with(error),
                },
                _ => self.protocol_failure(),
            },
            Phase::Remuxing { failed } => {
                match event {
                    Event::RemuxProgress { out_time } => {
                        match parse_ffmpeg_time(out_time.as_str()) {
                            Ok(secs) => {
                                self.phase = Phase::Remuxing { failed };
                                let mut messages = Vec::new();
                                messages.push(DownloadHlsMessage::FfmpegProgress { out_time: secs });
                                Step { action: Action::Wait, messages }
                            },
                            Err(_) => {
                                self.phase = Phase::Remuxing { failed: true };
                                Step { action: Action::Wait, messages: Vec::new() }
                            },
                        }
                    },
                    Event::RemuxExited { success } => {
                        self.phase = Phase::Remuxing { failed: failed || !success };
                        Step { action: Action::Wait, messages: Vec::new() }
                    },
                    Event::RemuxEnded => {
                        if failed {
                            self.fail("the remux subprocess failed")
                        } else {
                            self.phase = Phase::Renaming;
                            Step {
                                action: Action::Rename {
                                    from: self.paths.temp_out.clone(),
                                    to: self.paths.destination.clone(),
                                },
                                messages: Vec::new(),
                            }
                        }
                    },
                    _ => self.protocol_failure(),
                }
            },
            Phase::CleaningUp => match event {
                _ => {
                    self.phase = Phase::Failed;
                    let text = match &self.error {
                        Some(e) => e.clone(),
                        None => "download failed".to_owned(),
                    };
                    let mut messages = Vec::new();
                    messages.push(DownloadHlsMessage::Error { error: text });
                    Step { action: Action::Finished, messages }
                },
            },
            Phase::Renaming => match event {
                Event::Renamed { result } => match result {
                    Ok(_) => {
                        self.phase = Phase::Releasing;
                        Step {
                            action: Action::Release {
                                lock_file: self.paths.lock_file.clone(),
                                temp_dir: self.paths.temp_dir.clone(),
                            },
                            messages: Vec::new(),
                        }
                    },
                    Err(error) => self.fail_with(error),
                },
                _ => self.protocol_failure(),
            },
            Phase::Releasing => match event {
                Event::Released { result } => match result {
                    Ok(_) => {
                        self.phase = Phase::Done;
                        let mut messages = Vec::new();
                        messages.push(DownloadHlsMessage::Done);
                        Step { action: Action::Finished, messages }
                    },
                    Err(error) => {
                        self.phase = Phase::Failed;
                        let mut messages = Vec::new();
                        messages.push(DownloadHlsMessage::Error { error });
                        Step { action: Action::Finished, messages }
                    },
                },
                _ => self.protocol_failure(),
            },
            Phase::Done => Step { action: Action::Finished, messages: Vec::new() },
            Phase::Failed => Step { action: Action::Finished, messages: Vec::new() },
        }
    }

    /// Enters the cleanup path: the temp output file is removed, and the
    /// failure is reported once the removal comes back.
    fn fail(&mut self, message: &str) -> (r: Step)
        requires
            old(self).wf(),
        ensures
            final(self).wf(),
            fail_step(*old(self), *final(self), r),
            final(self).segment_urls == old(self).segment_urls,
            final(self).segment_paths == old(self).segment_paths,
    {
        self.error = Some(message.to_owned());
        self.phase = Phase::CleaningUp;
        Step {
            action: Action::RemoveFile { path: self.paths.temp_out.clone() },
            messages: Vec::new(),
        }
    }

    /// Enters the cleanup path with an owned failure description.
    fn fail_with(&mut self, message: String) -> (r: Step)
        requires
            old(self).wf(),
        ensures
            final(self).wf(),
            fail_step(*old(self), *final(self), r),
            final(self).segment_urls == old(self).segment_urls,
            final(self).segment_paths == old(self).segment_paths,
    {
        self.error = Some(message);
        self.phase = Phase::CleaningUp;
        Step {
            action: Action::RemoveFile { path: self.paths.temp_out.clone() },
            messages: Vec::new(),
        }
    }

    /// Ends the session after an event that the current phase does not
    /// expect.
    fn protocol_failure(&mut self) -> (r: Step)
        requires
            old(self).wf(),
        ensures
            final(self).wf(),
            failed_step(*final(self), r),
    {
        self.phase = Phase::Failed;
        let mut messages = Vec::new();
        messages.push(
            DownloadHlsMessage::Error { error: "unexpected event for this phase".to_owned() },
        );
        Step { action: Action::Finished, messages }
    }

    /// Handles the fetched media playlist text: parses it, checks and
    /// resolves every segment, and asks which segment files already exist.
    fn handle_media_text(&mut self, text: &str) -> (r: Step)
        requires
            old(self).wf(),
        ensures
            final(self).wf(),
            planned_step(*old(self), text@, old(self).media_url@, *final(self), r),
    {
        let playlist = match MediaPlaylist::from_str(text) {
            Ok(p) => p,
            Err(_) => {
                return self.fail("invalid media playlist");
            },
        };
        proof {
            lemma_media_playlist_uris_valid(text@);
        }
        let ghost p = spec_parse_media_playlist(text@)->Ok_0;
        let n = playlist.media_segments.len();
        let mut urls: Vec<String> = Vec::new();
        let mut seg_paths: Vec<String> = Vec::new();
        let mut k: usize = 0;
        while k < n
            invariant
                old(self).wf(),
                self == old(self),
                n == playlist.media_segments@.len(),
                playlist@ == p,
                spec_parse_media_playlist(text@) == Ok::<SpecMediaPlaylist, crate::SpecError>(p),
                forall|j: int|
                    0 <= j < p.media_segments.len() ==> uri_reference_valid(
                        #[trigger] p.media_segments[j].uri,
                    ),
                0 <= k <= n,
                urls@.len() == k,
                seg_paths@.len() == k,
                forall|j: int|
                    0 <= j < k ==> {
                        &&& ends_with(uri_path(#[trigger] p.media_segments[j].uri), ".ts"@)
                        &&& url_join(old(self).media_url@, p.media_segments[j].uri) is Some
                    },
                forall|j: int|
                    0 <= j < k ==> #[trigger] urls@[j]@ == segment_url_of(
                        p,
                        old(self).media_url@,
                        j,
                    ),
                forall|j: int|
                    0 <= j < k ==> #[trigger] seg_paths@[j]@ == file_for_url(
                        old(self).paths.temp_dir@,
                        segment_url_of(p, old(self).media_url@, j),
                    ),
            decreases n - k,
        {
            let seg_uri = playlist.media_segments[k].uri.clone();
            proof {
                assert(seg_uri@ == p.media_segments[k as int].uri);
            }
            let path_part = uri_path_str(seg_uri.as_str());
            if !str_ends_with(path_part.as_str(), ".ts") {
                proof {
                    assert(!(ends_with(uri_path(p.media_segments[k as int].uri), ".ts"@)
                        && url_join(old(self).media_url@, p.media_segments[k as int].uri)
                        is Some));
                    assert(!segments_fetchable(p, old(self).media_url@));
                }
                return self.fail("segment does not end with \".ts\"");
            }
            let resolved = match join_url(self.media_url.as_str(), seg_uri.as_str()) {
                Some(u) => u,
                None => {
                    proof {
                        assert(!(ends_with(uri_path(p.media_segments[k as int].uri), ".ts"@)
                            && url_join(old(self).media_url@, p.media_segments[k as int].uri)
                            is Some));
                        assert(!segments_fetchable(p, old(self).media_url@));
                    }
                    return self.fail("invalid media segment url");
                },
            };
            let file_name = url_to_file_name(resolved.as_str());
            let seg_path = join_dir(self.paths.temp_dir.as_str(), file_name.as_str());
            urls.push(resolved);
            seg_paths.push(seg_path);
            k += 1;
        }
        let concat_name = url_to_file_name(self.media_url.as_str());
        let concat_path = join_dir(self.paths.temp_dir.as_str(), concat_name.as_str());
        self.segment_urls = urls;
        self.segment_paths = clone_strings(&seg_paths);
        self.concat_path = concat_path;
        self.phase = Phase::Probing;
        let mut messages = Vec::new();
        messages.push(DownloadHlsMessage::DownloadedMediaPlaylist { media_playlist: playlist });
        Step { action: Action::ProbeSegments { paths: seg_paths }, messages }
    }

    /// Turns the probe result into the fetch plan: already-present segments
    /// are announced at once, and only the absent ones are fetched.
    fn plan_fetches(&mut self, present: Vec<bool>) -> (r: Step)
        requires
            old(self).wf(),
            old(self).phase is Probing,
            present@.len() == old(self).segment_paths@.len(),
        ensures
            final(self).wf(),
            step_spec(*old(self), (Event::SegmentsProbed { present }), *final(self), r),
    {
        let ghost uv = strings_view(self.segment_urls@);
        let ghost pv = strings_view(self.segment_paths@);
        let n = present.len();
        let mut jobs: Vec<SegmentJob> = Vec::new();
        let mut messages: Vec<DownloadHlsMessage> = Vec::new();
        let mut k: usize = 0;
        proof {
            assert(jobs_view(jobs@) + missing_jobs(uv, pv, present@, 0) =~= missing_jobs(
                uv,
                pv,
                present@,
                0,
            ));
        }
        while k < n
            invariant
                old(self).wf(),
                self == old(self),
                uv == strings_view(self.segment_urls@),
                pv == strings_view(self.segment_paths@),
                n == present@.len(),
                n == self.segment_paths@.len(),
                n == self.segment_urls@.len(),
                0 <= k <= n,
                jobs_view(jobs@) + missing_jobs(uv, pv, present@, k as int) =~= missing_jobs(
                    uv,
                    pv,
                    present@,
                    0,
                ),
                messages@.len() + jobs@.len() == k,
                forall|j: int|
                    0 <= j < messages@.len() ==> #[trigger] messages@[j] is DownloadedMediaSegment,
            decreases n - k,
        {
            if present[k] {
                messages.push(DownloadHlsMessage::DownloadedMediaSegment);
            } else {
                let job = SegmentJob {
                    url: self.segment_urls[k].clone(),
                    path: self.segment_paths[k].clone(),
                };
                let ghost jv = (job.url@, job.path@);
                jobs.push(job);
                proof {
                    assert(jobs_view(jobs@) + missing_jobs(uv, pv, present@, k + 1) =~= missing_jobs(
                        uv,
                        pv,
                        present@,
                        0,
                    ));
                }
            }
            k += 1;
        }
        proof {
            assert(jobs_view(jobs@) =~= missing_jobs(uv, pv, present@, 0));
        }
        if jobs.len() == 0 {
            self.phase = Phase::Concatenating;
            messages.push(DownloadHlsMessage::DownloadedAllMediaSegments);
            Step {
                action: Action::Concatenate {
                    sources: clone_strings(&self.segment_paths),
                    output: self.concat_path.clone(),
                },
                messages,
            }
        } else {
            let remaining = jobs.len();
            self.phase = Phase::Downloading { remaining };
            Step { action: Action::FetchSegments { jobs }, messages }
        }
    }
}

} // verus!
