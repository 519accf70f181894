//! Tests for the anime type codes, the sysroot builder and the package-list
//! parser.
use bewu::anime_type::AnimeType;
use bewu::debian_sysroot::get_debian_arch;
use bewu::debian_sysroot::get_gcc_triple;
use bewu::debian_sysroot::parse_package_list;
use bewu::debian_sysroot::DebianSysrootBuilder;
use bewu::debian_sysroot::PackageListError;
use bewu::decimal::Decimal;
use bewu::playlist_type::PlaylistType;
use bewu::VideoRange;

#[test]
fn anime_type_codes_round_trip() {
    assert_eq!(AnimeType::from_str("DUB").unwrap(), AnimeType::Dub);
    assert_eq!(AnimeType::from_str("SUB").unwrap(), AnimeType::Sub);
    assert_eq!(AnimeType::from_str("RAW").unwrap(), AnimeType::Raw);
    assert!(AnimeType::from_str("dub").is_err());
    assert_eq!(AnimeType::Dub.as_str(), "DUB");
    assert_eq!(AnimeType::Sub.as_str(), "SUB");
    assert_eq!(AnimeType::Raw.as_str(), "RAW");
    assert!(AnimeType::Dub.is_dub());
    assert!(!AnimeType::Dub.is_sub());
    assert!(AnimeType::Sub.is_sub());
    assert!(AnimeType::Raw.is_raw());
}

#[test]
fn playlist_type_and_video_range_codes() {
    assert_eq!(PlaylistType::from_str("VOD").unwrap(), PlaylistType::Vod);
    assert_eq!(PlaylistType::from_str("EVENT").unwrap(), PlaylistType::Event);
    assert!(PlaylistType::from_str("LIVE").is_err());
    assert_eq!(VideoRange::from_str("SDR").unwrap(), VideoRange::Sdr);
    assert_eq!(VideoRange::from_str("HLG").unwrap(), VideoRange::Hlg);
    assert_eq!(VideoRange::from_str("PQ").unwrap(), VideoRange::Pq);
    assert!(VideoRange::from_str("HDR10").is_err());
}

#[test]
fn decimal_values() {
    let d = Decimal::new(9, 9000);
    assert_eq!(d.units, 9);
    assert_eq!(d.millionths, 9000);
    assert_eq!(d.whole(), 9);
    assert_eq!(Decimal::from_units(10), Decimal::new(10, 0));
}

#[test]
fn debian_arch_tables() {
    assert_eq!(get_debian_arch("x86_64-unknown-linux-gnu"), Some("amd64"));
    assert_eq!(get_debian_arch("aarch64-unknown-linux-gnu"), Some("arm64"));
    assert_eq!(get_debian_arch("armv7-unknown-linux-gnueabihf"), Some("armhf"));
    assert_eq!(get_debian_arch("wasm32-unknown-unknown"), None);
    assert_eq!(get_gcc_triple("x86_64-unknown-linux-gnu"), Some("x86_64-linux-gnu"));
    assert_eq!(get_gcc_triple("aarch64-unknown-linux-gnu"), Some("aarch64-linux-gnu"));
    assert_eq!(get_gcc_triple("armv7-unknown-linux-gnueabihf"), None);
}

#[test]
fn sysroot_builder_defaults_and_setters() {
    let builder = DebianSysrootBuilder::new("base".to_owned());
    assert_eq!(builder.base_path, "base");
    assert_eq!(builder.repository_url, "https://ftp.debian.org/debian");
    assert_eq!(builder.release, "bookworm");
    assert_eq!(builder.arch, "amd64");
    let builder = builder
        .repository_url("https://mirror.example.com/debian".to_owned())
        .release("trixie".to_owned())
        .arch("arm64".to_owned());
    assert_eq!(builder.base_path, "base");
    assert_eq!(builder.repository_url, "https://mirror.example.com/debian");
    assert_eq!(builder.release, "trixie");
    assert_eq!(builder.arch, "arm64");
}

#[test]
fn package_lists_parse_per_block() {
    let input = "Package: zlib1g\n\
Source: zlib\n\
Filename: pool/main/z/zlib/zlib1g_1.2.13.deb\n\
Depends: libc6 (>= 2.4), libgcc-s1\n\
\n\
Package: broken\n\
Description: no file name here\n\
\n\
Package: tiny\n\
Filename: pool/main/t/tiny/tiny_1.deb\n";
    let packages = parse_package_list(input);
    assert_eq!(packages.len(), 3);
    let first = packages[0].as_ref().unwrap();
    assert_eq!(first.name, "zlib1g");
    assert_eq!(first.file_name, "pool/main/z/zlib/zlib1g_1.2.13.deb");
    assert_eq!(first.depends, vec!["libc6 (>= 2.4)".to_owned(), "libgcc-s1".to_owned()]);
    assert_eq!(packages[1], Err(PackageListError::MissingFileName));
    let third = packages[2].as_ref().unwrap();
    assert_eq!(third.name, "tiny");
    assert!(third.depends.is_empty());
}

#[test]
fn package_list_duplicate_fields_are_refused() {
    let input = "Package: a\nPackage: b\nFilename: f\n";
    let packages = parse_package_list(input);
    assert_eq!(packages.len(), 1);
    assert_eq!(packages[0], Err(PackageListError::DuplicateName));
}

#[test]
fn make_https_adds_a_scheme() {
    assert_eq!(
        bewu::urls::make_https("//example.com/video"),
        "https://example.com/video"
    );
    assert_eq!(
        bewu::urls::make_https("http://example.com/video"),
        "http://example.com/video"
    );
    assert_eq!(bewu::urls::make_https(""), "");
}
