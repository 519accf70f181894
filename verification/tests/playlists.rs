//! Tests for the tag lexer and the media and master playlist parsers.
use bewu::decimal::Decimal;
use bewu::master_playlist::MasterPlaylist;
use bewu::media_playlist::MediaPlaylist;
use bewu::media_playlist::MediaSegment;
use bewu::playlist_type::PlaylistType;
use bewu::tag::AttributeListParser;
use bewu::tag::ParseTagError;
use bewu::tag::Tag;
use bewu::Error;
use bewu::VideoRange;

/// The canonical three-segment example.
///
/// Note that it is also invalid, as it omits setting the EXT-X-VERSION tag
/// to 3 while using floating point times for EXTINF; the parser is lenient
/// there.
const SIMPLE_MEDIA_PLAYLIST: &str = "#EXTM3U\n\
#EXT-X-TARGETDURATION:10\n\
#EXTINF:9.009,\n\
http://media.example.com/first.ts\n\
#EXTINF:9.009,\n\
http://media.example.com/second.ts\n\
#EXTINF:3.003,\n\
http://media.example.com/third.ts\n\
#EXT-X-ENDLIST\n";

const LIVE_MEDIA_PLAYLIST_USING_HTTPS: &str = "#EXTM3U\n\
#EXT-X-VERSION:3\n\
#EXT-X-TARGETDURATION:8\n\
#EXT-X-MEDIA-SEQUENCE:2680\n\
\n\
#EXTINF:7.975,\n\
https://priv.example.com/fileSequence2680.ts\n\
#EXTINF:7.941,\n\
https://priv.example.com/fileSequence2681.ts\n\
#EXTINF:7.975,\n\
https://priv.example.com/fileSequence2682.ts\n";

const PLAYLIST_WITH_ENCRYPTED_MEDIA_SEGMENTS: &str = "#EXTM3U\n\
#EXT-X-VERSION:3\n\
#EXT-X-MEDIA-SEQUENCE:7794\n\
#EXT-X-TARGETDURATION:15\n\
#EXT-X-KEY:METHOD=AES-128,URI=\"https://priv.example.com/key.php?r=52\"\n\
#EXTINF:2.833,\n\
http://media.example.com/fileSequence52-A.ts\n\
#EXTINF:15.0,\n\
http://media.example.com/fileSequence52-B.ts\n\
#EXTINF:13.333,\n\
http://media.example.com/fileSequence52-C.ts\n\
#EXT-X-KEY:METHOD=AES-128,URI=\"https://priv.example.com/key.php?r=53\"\n\
#EXTINF:15.0,\n\
http://media.example.com/fileSequence53-A.ts\n";

const REAL_MEDIA_PLAYLIST_1: &str = "#EXTM3U\n\
#EXT-X-VERSION:3\n\
#EXT-X-PLAYLIST-TYPE:VOD\n\
#EXT-X-TARGETDURATION:12\n\
#EXT-X-MEDIA-SEQUENCE:0\n\
#EXTINF:11.994667,\n\
ep.1.1677648129.0.ts\n\
#EXTINF:10.010667,\n\
ep.1.1677648129.1.ts\n\
#EXTINF:8.992,\n\
ep.1.1677648129.2.ts\n\
#EXT-X-ENDLIST\n";

const REAL_MEDIA_PLAYLIST_2: &str = "#EXTM3U\n\
#EXT-X-VERSION:3\n\
#EXT-X-ALLOW-CACHE:YES\n\
#EXT-X-TARGETDURATION:10\n\
#EXT-X-MEDIA-SEQUENCE:1\n\
#EXT-X-KEY:METHOD=AES-128,URI=\"https://cdn.example.net/key/42\"\n\
#EXTINF:9.6,segment one\n\
https://cdn.example.net/hls/42/seg-1.ts?token=abc123\n\
#EXTINF:9.6,segment two\n\
https://cdn.example.net/hls/42/seg-2.ts?token=abc123\n\
#EXT-X-ENDLIST\n";

const MASTER_PLAYLIST: &str = "#EXTM3U\n\
#EXT-X-STREAM-INF:BANDWIDTH=1280000,AVERAGE-BANDWIDTH=1000000\n\
http://example.com/low.m3u8\n\
#EXT-X-STREAM-INF:BANDWIDTH=2560000,AVERAGE-BANDWIDTH=2000000\n\
http://example.com/mid.m3u8\n\
#EXT-X-STREAM-INF:BANDWIDTH=7680000,AVERAGE-BANDWIDTH=6000000\n\
http://example.com/hi.m3u8\n\
#EXT-X-STREAM-INF:BANDWIDTH=65000,CODECS=\"mp4a.40.5\"\n\
http://example.com/audio-only.m3u8\n";

const REAL_MASTER_PLAYLIST_1: &str = "#EXTM3U\n\
#EXT-X-STREAM-INF:PROGRAM-ID=1,BANDWIDTH=1740000,RESOLUTION=1280x720,FRAME-RATE=29.970,CODECS=\"avc1.64001f,mp4a.40.2\",VIDEO-RANGE=SDR,NAME=\"720p\"\n\
ep.1.1677648129.m3u8\n\
#EXT-X-STREAM-INF:PROGRAM-ID=1,BANDWIDTH=860000,RESOLUTION=854x480,FRAME-RATE=29.970,CODECS=\"avc1.64001e,mp4a.40.2\",NAME=\"480p\"\n\
ep.1.1677648129.480.m3u8\n";

#[test]
fn parse_simple_media_playlist() {
    let playlist: MediaPlaylist =
        MediaPlaylist::from_str(SIMPLE_MEDIA_PLAYLIST).expect("failed to parse");
    assert!(playlist.target_duration == Decimal::from_units(10));
    assert!(
        playlist.media_segments
            == [
                MediaSegment {
                    duration: Decimal::new(9, 9000),
                    title: None,
                    uri: "http://media.example.com/first.ts".to_owned(),
                },
                MediaSegment {
                    duration: Decimal::new(9, 9000),
                    title: None,
                    uri: "http://media.example.com/second.ts".to_owned(),
                },
                MediaSegment {
                    duration: Decimal::new(3, 3000),
                    title: None,
                    uri: "http://media.example.com/third.ts".to_owned(),
                }
            ]
    );
    assert!(playlist.version.is_none());
}

#[test]
fn parse_live_media_playlist_using_https() {
    let playlist: MediaPlaylist =
        MediaPlaylist::from_str(LIVE_MEDIA_PLAYLIST_USING_HTTPS).expect("failed to parse");
    assert!(playlist.version == Some(3));
    assert!(playlist.media_sequence_number == Some(2680));
}

#[test]
fn parse_playlist_with_encrypted_media_segments() {
    let playlist: MediaPlaylist =
        MediaPlaylist::from_str(PLAYLIST_WITH_ENCRYPTED_MEDIA_SEGMENTS).expect("failed to parse");
    assert!(playlist.version == Some(3));
}

#[test]
fn parse_real_media_playlist_1() {
    let playlist: MediaPlaylist =
        MediaPlaylist::from_str(REAL_MEDIA_PLAYLIST_1).expect("failed to parse");
    assert!(playlist.version == Some(3));
    assert!(matches!(playlist.playlist_type, Some(PlaylistType::Vod)));
    assert_eq!(playlist.media_segments.len(), 3);
    assert_eq!(playlist.media_segments[0].duration, Decimal::new(11, 994667));
}

#[test]
fn parse_real_media_playlist_2() {
    let playlist: MediaPlaylist =
        MediaPlaylist::from_str(REAL_MEDIA_PLAYLIST_2).expect("failed to parse");
    assert!(playlist.version == Some(3));
    assert_eq!(playlist.media_segments.len(), 2);
    assert_eq!(
        playlist.media_segments[0].title.as_deref(),
        Some("segment one")
    );
    assert_eq!(playlist.media_segments[1].duration, Decimal::new(9, 600000));
}

#[test]
fn parse_master_playlist() {
    let playlist: MasterPlaylist =
        MasterPlaylist::from_str(MASTER_PLAYLIST).expect("failed to parse");
    assert_eq!(playlist.variant_streams.len(), 4);
    assert_eq!(playlist.variant_streams[0].bandwidth, 1280000);
    assert_eq!(playlist.variant_streams[0].average_bandwidth, Some(1000000));
    assert_eq!(playlist.variant_streams[0].uri, "http://example.com/low.m3u8");
    assert_eq!(
        playlist.variant_streams[3].codecs,
        Some(vec!["mp4a.40.5".to_owned()])
    );
}

#[test]
fn parse_real_master_playlist_1() {
    let playlist: MasterPlaylist =
        MasterPlaylist::from_str(REAL_MASTER_PLAYLIST_1).expect("failed to parse");
    assert_eq!(playlist.variant_streams.len(), 2);
    assert_eq!(playlist.variant_streams[0].resolution, Some((1280, 720)));
    assert_eq!(
        playlist.variant_streams[0].frame_rate,
        Some(Decimal::new(29, 970000))
    );
    assert_eq!(
        playlist.variant_streams[0].codecs,
        Some(vec!["avc1.64001f".to_owned(), "mp4a.40.2".to_owned()])
    );
    assert_eq!(playlist.variant_streams[0].video_range, Some(VideoRange::Sdr));
    assert_eq!(playlist.variant_streams[0].name.as_deref(), Some("720p"));
    assert_eq!(playlist.variant_streams[1].name.as_deref(), Some("480p"));
}

#[test]
fn extinf_recovers_duration_and_title() {
    // A present title is kept exactly.
    let tag = Tag::parse("EXTINF:9.009,Some Title, with a comma").expect("failed to parse");
    assert!(
        tag == Tag::ExtInf {
            duration: Decimal::new(9, 9000),
            title: Some("Some Title, with a comma".to_owned()),
        }
    );
    // An empty title reads as absent.
    let tag = Tag::parse("EXTINF:3,").expect("failed to parse");
    assert!(tag == Tag::ExtInf { duration: Decimal::from_units(3), title: None });
    // The duration keeps its full precision.
    let tag = Tag::parse("EXTINF:0.123456,x").expect("failed to parse");
    assert!(
        tag == Tag::ExtInf { duration: Decimal::new(0, 123456), title: Some("x".to_owned()) }
    );
}

#[test]
fn extinf_errors() {
    assert!(matches!(Tag::parse("EXTINF:9.009"), Err(ParseTagError::MissingComma)));
    assert!(matches!(Tag::parse("EXTINF9.009,"), Err(ParseTagError::MissingColon)));
    assert!(matches!(Tag::parse("EXTINF:abc,"), Err(ParseTagError::ParseFloat)));
    assert!(matches!(Tag::parse("EXT-X-VERSION:x"), Err(ParseTagError::ParseInt)));
    assert!(matches!(Tag::parse("EXT-X-VERSION:300"), Err(ParseTagError::ParseInt)));
    assert!(matches!(Tag::parse("EXT-NOPE:1"), Err(ParseTagError::Unknown { .. })));
}

#[test]
fn key_tag_attributes() {
    let tag = Tag::parse("EXT-X-KEY:METHOD=AES-128,URI=\"https://k/1\"").expect("failed to parse");
    assert!(
        tag == Tag::ExtXKey {
            method: "AES-128".to_owned(),
            uri: Some("https://k/1".to_owned())
        }
    );
    assert!(matches!(
        Tag::parse("EXT-X-KEY:URI=\"https://k/1\""),
        Err(ParseTagError::MissingAttribute { name: "METHOD" })
    ));
    assert!(matches!(
        Tag::parse("EXT-X-KEY:METHOD=AES-128,METHOD=AES-128"),
        Err(ParseTagError::DuplicateAttribute { .. })
    ));
    assert!(matches!(
        Tag::parse("EXT-X-KEY:SECRET=1"),
        Err(ParseTagError::UnknownAttribute { .. })
    ));
    assert!(matches!(
        Tag::parse("EXT-X-STREAM-INF:BANDWIDTH=12x"),
        Err(ParseTagError::AttributeListParse { .. })
    ));
}

#[test]
fn duplicate_attributes_are_hard_errors() {
    // Every attribute of a tag, the discarded PROGRAM-ID included, is a
    // hard error when repeated: never last-wins.
    assert!(matches!(
        Tag::parse("EXT-X-STREAM-INF:PROGRAM-ID=1,PROGRAM-ID=1"),
        Err(ParseTagError::DuplicateAttribute { .. })
    ));
    assert!(matches!(
        Tag::parse("EXT-X-STREAM-INF:BANDWIDTH=5,PROGRAM-ID=1,PROGRAM-ID=2"),
        Err(ParseTagError::DuplicateAttribute { .. })
    ));
    assert!(matches!(
        Tag::parse("EXT-X-STREAM-INF:BANDWIDTH=5,BANDWIDTH=5"),
        Err(ParseTagError::DuplicateAttribute { .. })
    ));
    assert!(matches!(
        Tag::parse("EXT-X-STREAM-INF:NAME=\"a\",NAME=\"a\",BANDWIDTH=5"),
        Err(ParseTagError::DuplicateAttribute { .. })
    ));
    // A lone PROGRAM-ID still leaves the required BANDWIDTH missing.
    assert!(matches!(
        Tag::parse("EXT-X-STREAM-INF:PROGRAM-ID=1"),
        Err(ParseTagError::MissingAttribute { name: "BANDWIDTH" })
    ));
}

#[test]
fn attribute_list_parser_primitives() {
    let mut parser = AttributeListParser::new("NAME=\"abc\",W=100x200,RATE=29.97,KIND=plain");
    assert_eq!(parser.parse_name().unwrap(), "NAME");
    parser.parse_equals().unwrap();
    assert_eq!(parser.parse_quoted_string().unwrap(), "abc");
    parser.parse_comma().unwrap();
    assert_eq!(parser.parse_name().unwrap(), "W");
    parser.parse_equals().unwrap();
    assert_eq!(parser.parse_decimal_resolution().unwrap(), (100, 200));
    parser.parse_comma().unwrap();
    assert_eq!(parser.parse_name().unwrap(), "RATE");
    parser.parse_equals().unwrap();
    assert_eq!(
        parser.parse_decimal_floating_point().unwrap(),
        Decimal::new(29, 970000)
    );
    parser.parse_comma().unwrap();
    assert_eq!(parser.parse_name().unwrap(), "KIND");
    parser.parse_equals().unwrap();
    assert_eq!(parser.parse_enumerated_string().unwrap(), "plain");
    assert!(parser.parse_comma().is_err());
}

#[test]
fn media_playlist_errors() {
    assert!(matches!(MediaPlaylist::from_str(""), Err(Error::UnexpectedEof)));
    assert!(matches!(
        MediaPlaylist::from_str("#EXTM3U8\n"),
        Err(Error::InvalidStartTag { .. })
    ));
    // A URI line with no preceding EXTINF yields MissingTag.
    assert!(matches!(
        MediaPlaylist::from_str("#EXTM3U\n#EXT-X-TARGETDURATION:10\nfirst.ts\n"),
        Err(Error::MissingTag { tag: "EXTINF" })
    ));
    // The target duration is required.
    assert!(matches!(
        MediaPlaylist::from_str("#EXTM3U\n#EXTINF:3,\nfirst.ts\n"),
        Err(Error::MissingTag { tag: "EXT-X-TARGETDURATION" })
    ));
    // Duplicated once-only tags are refused.
    assert!(matches!(
        MediaPlaylist::from_str("#EXTM3U\n#EXT-X-TARGETDURATION:10\n#EXT-X-TARGETDURATION:10\n"),
        Err(Error::DuplicateTag { tag: "EXT-X-TARGETDURATION" })
    ));
    assert!(matches!(
        MediaPlaylist::from_str("#EXTM3U\n#EXT-X-VERSION:3\n#EXT-X-VERSION:3\n#EXT-X-TARGETDURATION:10\n"),
        Err(Error::DuplicateTag { tag: "EXT-X-VERSION" })
    ));
    // A master-only tag is invalid in a media playlist.
    assert!(matches!(
        MediaPlaylist::from_str("#EXTM3U\n#EXT-X-STREAM-INF:BANDWIDTH=1\nx.m3u8\n"),
        Err(Error::InvalidTag)
    ));
    // An invalid URI line is refused.
    assert!(matches!(
        MediaPlaylist::from_str("#EXTM3U\n#EXT-X-TARGETDURATION:10\n#EXTINF:3,\nnot a uri\n"),
        Err(Error::InvalidUri { .. })
    ));
    // A tag parse error is carried through.
    assert!(matches!(
        MediaPlaylist::from_str("#EXTM3U\n#EXT-X-TARGETDURATION:\n"),
        Err(Error::Tag { .. })
    ));
}

#[test]
fn master_playlist_errors() {
    // An EXT-X-STREAM-INF tag with no following URI line yields MissingTag.
    assert!(matches!(
        MasterPlaylist::from_str("#EXTM3U\n#EXT-X-STREAM-INF:BANDWIDTH=100\n"),
        Err(Error::MissingTag { .. })
    ));
    // A URI line with no preceding EXT-X-STREAM-INF yields MissingTag.
    assert!(matches!(
        MasterPlaylist::from_str("#EXTM3U\nlow.m3u8\n"),
        Err(Error::MissingTag { tag: "EXT-X-STREAM-INF" })
    ));
    // Two stream-info tags in a row are a duplicate.
    assert!(matches!(
        MasterPlaylist::from_str(
            "#EXTM3U\n#EXT-X-STREAM-INF:BANDWIDTH=1\n#EXT-X-STREAM-INF:BANDWIDTH=2\nx.m3u8\n"
        ),
        Err(Error::DuplicateTag { tag: "EXT-X-STREAM-INF" })
    ));
    // A media-only tag is invalid in a master playlist.
    assert!(matches!(
        MasterPlaylist::from_str("#EXTM3U\n#EXT-X-TARGETDURATION:10\n"),
        Err(Error::InvalidTag)
    ));
}

#[test]
fn variant_selection_is_deterministic() {
    // The higher bandwidth wins regardless of declaration order.
    let a = MasterPlaylist::from_str(
        "#EXTM3U\n#EXT-X-STREAM-INF:BANDWIDTH=500000\nlow.m3u8\n#EXT-X-STREAM-INF:BANDWIDTH=1200000\nhigh.m3u8\n",
    )
    .unwrap();
    let k = a.best_variant().unwrap();
    assert_eq!(a.variant_streams[k].uri, "high.m3u8");

    let b = MasterPlaylist::from_str(
        "#EXTM3U\n#EXT-X-STREAM-INF:BANDWIDTH=1200000\nhigh.m3u8\n#EXT-X-STREAM-INF:BANDWIDTH=500000\nlow.m3u8\n",
    )
    .unwrap();
    let k = b.best_variant().unwrap();
    assert_eq!(b.variant_streams[k].uri, "high.m3u8");

    // Equal bandwidths: the first declared wins.
    let c = MasterPlaylist::from_str(
        "#EXTM3U\n#EXT-X-STREAM-INF:BANDWIDTH=800000\nfirst.m3u8\n#EXT-X-STREAM-INF:BANDWIDTH=800000\nsecond.m3u8\n",
    )
    .unwrap();
    let k = c.best_variant().unwrap();
    assert_eq!(c.variant_streams[k].uri, "first.m3u8");

    // No variants: no selection.
    let d = MasterPlaylist::from_str("#EXTM3U\n").unwrap();
    assert!(d.best_variant().is_none());
}

#[test]
fn integer_tags_that_do_not_fit_are_refused() {
    // One past the largest sequence number.
    assert!(matches!(
        Tag::parse("EXT-X-MEDIA-SEQUENCE:18446744073709551616"),
        Err(ParseTagError::ParseInt)
    ));
    assert!(matches!(
        Tag::parse("EXT-X-MEDIA-SEQUENCE:18446744073709551615"),
        Ok(Tag::ExtXMediaSequence { number: u64::MAX })
    ));
}
