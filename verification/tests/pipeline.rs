//! Tests for the download session state machine, the path conventions and
//! the remux progress clock.
use bewu::ffmpeg_time::parse_ffmpeg_time;
use bewu::paths::url_to_file_name;
use bewu::paths::DownloadPaths;
use bewu::session::Action;
use bewu::session::DownloadHlsMessage;
use bewu::session::DownloadSession;
use bewu::session::Event;
use bewu::session::Phase;

const MEDIA_TEXT: &str = "#EXTM3U\n\
#EXT-X-TARGETDURATION:10\n\
#EXTINF:9.009,\n\
first.ts?token=abc\n\
#EXTINF:9.009,\n\
second.ts?token=abc\n\
#EXTINF:3.003,\n\
third.ts?token=abc\n\
#EXT-X-ENDLIST\n";

const MASTER_TEXT: &str = "#EXTM3U\n\
#EXT-X-STREAM-INF:BANDWIDTH=500000\n\
low/playlist.m3u8\n\
#EXT-X-STREAM-INF:BANDWIDTH=1200000\n\
high/playlist.m3u8\n";

fn new_session() -> (DownloadSession, Action) {
    DownloadSession::new("http://media.example.com/ep/playlist.m3u8", "out/episode.mp4")
        .expect("failed to open the session")
}

/// Drives a fresh session up to the segment probe.
fn session_at_probe() -> (DownloadSession, Vec<String>) {
    let (mut session, action) = new_session();
    assert!(matches!(action, Action::CheckDestination { .. }));
    let step = session.step(Event::DestinationExists { exists: false });
    assert!(matches!(step.action, Action::PrepareAndLock { .. }));
    let step = session.step(Event::Locked { acquired: true });
    match step.action {
        Action::FetchText { url } => assert_eq!(url, "http://media.example.com/ep/playlist.m3u8"),
        other => panic!("unexpected action {other:?}"),
    }
    let step = session.step(Event::FetchedText { result: Ok(MEDIA_TEXT.to_owned()) });
    assert!(matches!(
        step.messages[0],
        DownloadHlsMessage::DownloadedMediaPlaylist { .. }
    ));
    match step.action {
        Action::ProbeSegments { paths } => (session, paths),
        other => panic!("unexpected action {other:?}"),
    }
}

#[test]
fn download_paths_layout() {
    let paths = DownloadPaths::new("dir/episode.mp4");
    assert_eq!(paths.destination, "dir/episode.mp4");
    assert_eq!(paths.temp_out, "dir/episode.mp4.part");
    assert_eq!(paths.temp_dir, "dir/episode.mp4.dir.part");
    assert_eq!(paths.lock_file, "dir/episode.mp4.dir.part/lockfile");
}

#[test]
fn url_file_names_are_escaped() {
    assert_eq!(
        url_to_file_name("https://example.com/a.ts"),
        "httpsx3Ax2Fx2Fex78ample.comx2Fa.ts"
    );
    // Every escaped character becomes an x-escape.
    assert_eq!(url_to_file_name("a/b\\c:d?e\"f<g>hxi"), "ax2Fbx5Ccx3Adx3Fex22fx3Cgx3Ehx78i");
    // Long names are cut off at 248 bytes.
    let long = "a".repeat(1000);
    assert_eq!(url_to_file_name(&long).len(), 248);
    // The cap counts bytes, not characters: two-byte characters stop at
    // the same byte length.
    let wide = "\u{e9}".repeat(300);
    assert_eq!(url_to_file_name(&wide).len(), 248);
}

#[test]
fn invalid_source_url_is_rejected() {
    assert!(DownloadSession::new("not a url", "out.mp4").is_err());
}

#[test]
fn source_url_is_normalized() {
    let (session, _action) = DownloadSession::new("HTTP://EXAMPLE.com", "out.mp4").unwrap();
    // The wrapper really went through the URL parser: the scheme and host
    // are lower-cased and the path is made explicit.
    assert_eq!(session.source_url, "http://example.com/");
}

#[test]
fn existing_destination_short_circuits() {
    let (mut session, _action) = new_session();
    let step = session.step(Event::DestinationExists { exists: true });
    // No fetch, no lock: the session is done at once.
    assert!(matches!(step.action, Action::Finished));
    assert_eq!(step.messages.len(), 1);
    assert!(matches!(step.messages[0], DownloadHlsMessage::AlreadyDownloaded));
    assert_eq!(session.phase, Phase::Done);
}

#[test]
fn lock_contention_fails_fast() {
    let (mut session, _action) = new_session();
    let step = session.step(Event::DestinationExists { exists: false });
    assert!(matches!(step.action, Action::PrepareAndLock { .. }));
    let step = session.step(Event::Locked { acquired: false });
    // A held lock is a reportable failure, and no shared state is touched.
    assert!(matches!(step.action, Action::Finished));
    assert_eq!(step.messages.len(), 1);
    assert!(matches!(step.messages[0], DownloadHlsMessage::Error { .. }));
    assert_eq!(session.phase, Phase::Failed);
}

#[test]
fn master_playlists_select_the_best_variant() {
    let (mut session, _action) = new_session();
    session.step(Event::DestinationExists { exists: false });
    session.step(Event::Locked { acquired: true });
    let step = session.step(Event::FetchedText { result: Ok(MASTER_TEXT.to_owned()) });
    // The 1200000 variant wins and its URI resolves against the source URL.
    match step.action {
        Action::FetchText { url } => {
            assert_eq!(url, "http://media.example.com/ep/high/playlist.m3u8")
        },
        other => panic!("unexpected action {other:?}"),
    }
}

#[test]
fn segment_urls_resolve_and_name_files() {
    let (_session, paths) = session_at_probe();
    assert_eq!(paths.len(), 3);
    // The segment URI resolved against the playlist URL, then escaped.
    assert_eq!(
        paths[0],
        "out/episode.mp4.dir.part/httpx3Ax2Fx2Fmedia.ex78ample.comx2Fepx2Ffirst.tsx3Ftoken=abc"
    );
}

#[test]
fn only_missing_segments_are_fetched() {
    let (mut session, paths) = session_at_probe();
    // Two of three segments are already on disk after an earlier attempt.
    let step = session.step(Event::SegmentsProbed { present: vec![true, false, true] });
    assert_eq!(step.messages.len(), 2);
    assert!(matches!(step.messages[0], DownloadHlsMessage::DownloadedMediaSegment));
    assert!(matches!(step.messages[1], DownloadHlsMessage::DownloadedMediaSegment));
    match step.action {
        Action::FetchSegments { jobs } => {
            assert_eq!(jobs.len(), 1);
            assert_eq!(jobs[0].path, paths[1]);
            assert_eq!(
                jobs[0].url,
                "http://media.example.com/ep/second.ts?token=abc"
            );
        },
        other => panic!("unexpected action {other:?}"),
    }
    // The last fetch leads into concatenation, in playlist order.
    let step = session.step(Event::SegmentFetched { result: Ok(()) });
    assert!(matches!(step.messages[0], DownloadHlsMessage::DownloadedMediaSegment));
    assert!(matches!(step.messages[1], DownloadHlsMessage::DownloadedAllMediaSegments));
    match step.action {
        Action::Concatenate { sources, .. } => assert_eq!(sources, paths),
        other => panic!("unexpected action {other:?}"),
    }
}

#[test]
fn all_segments_present_skips_fetching() {
    let (mut session, _paths) = session_at_probe();
    let step = session.step(Event::SegmentsProbed { present: vec![true, true, true] });
    assert_eq!(step.messages.len(), 4);
    assert!(matches!(step.messages[3], DownloadHlsMessage::DownloadedAllMediaSegments));
    assert!(matches!(step.action, Action::Concatenate { .. }));
}

#[test]
fn failed_remux_removes_temp_output_and_never_renames() {
    let (mut session, _paths) = session_at_probe();
    session.step(Event::SegmentsProbed { present: vec![false, false, false] });
    session.step(Event::SegmentFetched { result: Ok(()) });
    session.step(Event::SegmentFetched { result: Ok(()) });
    let step = session.step(Event::SegmentFetched { result: Ok(()) });
    assert!(matches!(step.action, Action::Concatenate { .. }));
    let step = session.step(Event::Concatenated { result: Ok(()) });
    match step.action {
        Action::Remux { output, .. } => assert_eq!(output, "out/episode.mp4.part"),
        other => panic!("unexpected action {other:?}"),
    }
    session.step(Event::RemuxExited { success: false });
    let step = session.step(Event::RemuxEnded);
    // The temp output is removed; the destination is never the target of a
    // rename on this path.
    match step.action {
        Action::RemoveFile { path } => assert_eq!(path, "out/episode.mp4.part"),
        other => panic!("unexpected action {other:?}"),
    }
    let step = session.step(Event::FileRemoved);
    assert!(matches!(step.action, Action::Finished));
    assert!(matches!(step.messages[0], DownloadHlsMessage::Error { .. }));
    assert_eq!(session.phase, Phase::Failed);
}

#[test]
fn successful_download_renames_and_releases() {
    let (mut session, _paths) = session_at_probe();
    session.step(Event::SegmentsProbed { present: vec![true, true, true] });
    let step = session.step(Event::Concatenated { result: Ok(()) });
    assert_eq!(step.messages.len(), 4);
    assert!(matches!(step.messages[0], DownloadHlsMessage::ConcatenatedMediaSegment));
    assert!(matches!(step.messages[3], DownloadHlsMessage::ConcatenatedAllMediaSegments));
    let step = session.step(Event::RemuxProgress { out_time: "00:01:15.250000".to_owned() });
    match &step.messages[0] {
        DownloadHlsMessage::FfmpegProgress { out_time } => assert_eq!(*out_time, 75),
        other => panic!("unexpected message {other:?}"),
    }
    session.step(Event::RemuxExited { success: true });
    let step = session.step(Event::RemuxEnded);
    match step.action {
        Action::Rename { from, to } => {
            assert_eq!(from, "out/episode.mp4.part");
            assert_eq!(to, "out/episode.mp4");
        },
        other => panic!("unexpected action {other:?}"),
    }
    let step = session.step(Event::Renamed { result: Ok(()) });
    match step.action {
        Action::Release { lock_file, temp_dir } => {
            assert_eq!(lock_file, "out/episode.mp4.dir.part/lockfile");
            assert_eq!(temp_dir, "out/episode.mp4.dir.part");
        },
        other => panic!("unexpected action {other:?}"),
    }
    let step = session.step(Event::Released { result: Ok(()) });
    assert!(matches!(step.action, Action::Finished));
    assert!(matches!(step.messages[0], DownloadHlsMessage::Done));
    assert_eq!(session.phase, Phase::Done);
}

#[test]
fn non_ts_segments_abort_the_download() {
    let (mut session, _action) = new_session();
    session.step(Event::DestinationExists { exists: false });
    session.step(Event::Locked { acquired: true });
    let text = "#EXTM3U\n#EXT-X-TARGETDURATION:10\n#EXTINF:4,\nsegment.mp4\n";
    let step = session.step(Event::FetchedText { result: Ok(text.to_owned()) });
    // The failure path removes the temp output but keeps the temp
    // directory for a future resume.
    assert!(matches!(step.action, Action::RemoveFile { .. }));
    let step = session.step(Event::FileRemoved);
    assert!(matches!(step.messages[0], DownloadHlsMessage::Error { .. }));
    assert_eq!(session.phase, Phase::Failed);
}

#[test]
fn parse_ffmpeg_time_reads_whole_seconds() {
    assert_eq!(parse_ffmpeg_time("00:00:03.970612").unwrap(), 3);
    assert_eq!(parse_ffmpeg_time("01:02:03.000001").unwrap(), 3723);
    assert_eq!(parse_ffmpeg_time("-00:00:01.500000").unwrap(), 1);
    assert_eq!(parse_ffmpeg_time("100:00:00.0").unwrap(), 360000);
    assert!(parse_ffmpeg_time("00:00:03").is_err());
    assert!(parse_ffmpeg_time("00:03.5").is_err());
    assert!(parse_ffmpeg_time("aa:bb:cc.dd").is_err());
    assert!(parse_ffmpeg_time("00:00:03.970612:4").is_err());
    assert!(parse_ffmpeg_time("").is_err());
}
