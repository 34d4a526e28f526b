use std::mem::size_of;

use docsrs_cli::config::{MAX_CRATE_NAME_CHARS, MAX_ITEM_PATH_CHARS, MAX_QUERY_CHARS};
use docsrs_cli::domain::{is_stdlib_name, AllowedOrigin, CrateName, CrateRef, ItemPath, SearchQuery, VersionArg};
use docsrs_cli::error::ErrorKind;

const STDLIB_NAMES: &[&str] = &["std", "core", "alloc"];

#[test]
fn domain_crate_name_ok_and_stdlib() {
    let s = CrateName::parse("serde").unwrap();
    assert_eq!(s.as_str(), "serde");
    assert!(!s.is_stdlib());
    assert!(CrateName::parse("async-trait").unwrap().as_str() == "async-trait");
    for n in ["std", "core", "alloc"] {
        let c = CrateName::parse(n).unwrap();
        assert!(c.is_stdlib(), "{n}");
    }
}

#[test]
fn domain_crate_name_err() {
    assert!(CrateName::parse("").is_err());
    assert!(CrateName::parse("1bad").is_err());
    assert!(CrateName::parse(&"a".repeat(MAX_CRATE_NAME_CHARS + 1)).is_err());
}

#[test]
fn domain_item_path_segments_and_display() {
    let p = ItemPath::parse("clap::Parser").unwrap();
    assert_eq!(p.segments(), &["clap".to_string(), "Parser".to_string()]);
    assert_eq!(p.to_string(), "clap::Parser");
    let slash = ItemPath::parse("runtime/Runtime").unwrap();
    assert_eq!(slash.segments(), &["runtime".to_string(), "Runtime".to_string()]);
    assert_eq!(ItemPath::parse("async_trait").unwrap().segments(), &["async_trait".to_string()]);
}

#[test]
fn domain_item_path_err() {
    assert!(ItemPath::parse("").is_err());
    assert!(ItemPath::parse("::").is_err());
    assert!(ItemPath::parse("has space").is_err());
    assert!(ItemPath::parse("foo.bar").is_err());
    assert!(ItemPath::parse("..").is_err());
    assert!(ItemPath::parse("a/../b").is_err());
}

#[test]
fn domain_search_query_rules() {
    assert!(SearchQuery::parse("", false).is_err());
    assert_eq!(SearchQuery::parse("  ", true).unwrap().as_str(), "");
    assert_eq!(SearchQuery::parse("serde", false).unwrap().as_str(), "serde");
    assert!(SearchQuery::parse(&"q".repeat(MAX_QUERY_CHARS + 1), false).is_err());
}

#[test]
fn domain_version_arg_policy() {
    assert_eq!(VersionArg::parse_opt(None).unwrap().as_str(), "latest");
    assert_eq!(VersionArg::parse_opt(Some("")).unwrap().as_str(), "latest");
    assert_eq!(VersionArg::parse("1.0.0").unwrap().as_str(), "1.0.0");
    assert_eq!(VersionArg::parse("stable").unwrap().stdlib_channel(), "stable");
    assert_eq!(VersionArg::parse("latest").unwrap().stdlib_channel(), "stable");
    assert!(VersionArg::parse("v1.0.0").is_err());
    assert!(VersionArg::parse("1.0.0+build").is_err());
    assert!(VersionArg::parse("not-a-version").is_err());
}

#[test]
fn crate_name_crate_name_ok_and_stdlib() {
    let s = CrateName::parse("serde").unwrap();
    assert_eq!(s.as_str(), "serde");
    assert!(!s.is_stdlib());
    assert!(CrateName::parse("async-trait").unwrap().as_str() == "async-trait");
    for n in STDLIB_NAMES {
        let c = CrateName::parse(n).unwrap();
        assert!(c.is_stdlib(), "{n}");
        assert!(is_stdlib_name(n));
    }
    assert!(!is_stdlib_name("serde"));
}

#[test]
fn crate_name_crate_name_err() {
    assert!(CrateName::parse("").is_err());
    assert!(CrateName::parse("1bad").is_err());
    assert!(CrateName::parse(&"a".repeat(MAX_CRATE_NAME_CHARS + 1)).is_err());
}

#[test]
fn crate_name_transparent_layout() {
    assert_eq!(size_of::<CrateName>(), size_of::<String>());
}

#[test]
fn crate_ref_plain_and_at_version() {
    let p = CrateRef::parse("serde").unwrap();
    assert_eq!(p.name.as_str(), "serde");
    assert!(p.version.is_none());
    let (n, v) = p.into_name_and_version(None).unwrap();
    assert_eq!(n.as_str(), "serde");
    assert_eq!(v.as_str(), "latest");

    let at = CrateRef::parse("clap@4.5.0").unwrap();
    assert_eq!(at.name.as_str(), "clap");
    assert_eq!(at.version.as_ref().unwrap().as_str(), "4.5.0");
    let (n, v) = at.into_name_and_version(None).unwrap();
    assert_eq!(v.as_str(), "4.5.0");
    assert_eq!(n.as_str(), "clap");
}

#[test]
fn crate_ref_merge_and_errors() {
    let at = CrateRef::parse("tokio@1.0.0").unwrap();
    let (n, v) = at.clone().into_name_and_version(Some("1.0.0")).unwrap();
    assert_eq!(n.as_str(), "tokio");
    assert_eq!(v.as_str(), "1.0.0");
    assert!(CrateRef::parse("tokio@1.0.0").unwrap().into_name_and_version(Some("2.0.0")).is_err());
    assert!(CrateRef::parse("clap@v4.5.0").is_err());
    assert!(CrateRef::parse("@1.0.0").is_err());
    assert!(CrateRef::parse("clap@").is_err());
    assert!(CrateRef::parse("a@b@c").is_err());
    let plain = CrateRef::parse("once_cell").unwrap();
    let (_, v) = plain.into_name_and_version(Some("1.21.0")).unwrap();
    assert_eq!(v.as_str(), "1.21.0");
}

#[test]
fn item_path_item_path_segments_and_display() {
    let p = ItemPath::parse("clap::Parser").unwrap();
    assert_eq!(p.segments(), &["clap".to_string(), "Parser".to_string()]);
    assert_eq!(p.to_string(), "clap::Parser");
    let slash = ItemPath::parse("runtime/Runtime").unwrap();
    assert_eq!(slash.segments(), &["runtime".to_string(), "Runtime".to_string()]);
    assert_eq!(ItemPath::parse("async_trait").unwrap().segments(), &["async_trait".to_string()]);
    // Hyphen normalizes to underscore (rustc path).
    assert_eq!(ItemPath::parse("async-trait").unwrap().segments(), &["async_trait".to_string()]);
    assert_eq!(
        ItemPath::parse("foo-bar::Baz-Quux").unwrap().segments(),
        &["foo_bar".to_string(), "Baz_Quux".to_string()]
    );
}

#[test]
fn item_path_item_path_err() {
    assert!(ItemPath::parse("").is_err());
    assert!(ItemPath::parse("::").is_err());
    assert!(ItemPath::parse("has space").is_err());
    assert!(ItemPath::parse("foo.bar").is_err());
    assert!(ItemPath::parse("..").is_err());
    assert!(ItemPath::parse("a/../b").is_err());
    assert!(ItemPath::parse(&format!("a::{}", "b".repeat(MAX_ITEM_PATH_CHARS))).is_err());
}

#[test]
fn parse_accepts_https_and_rejects_garbage() {
    assert_eq!(AllowedOrigin::parse("https://docs.rs/").unwrap().as_str(), "https://docs.rs");
    assert!(AllowedOrigin::parse("https://evil.example").is_err());
    assert!(AllowedOrigin::parse("not-a-url").is_err());
    assert!(AllowedOrigin::parse("").is_err());
    assert!(AllowedOrigin::parse("http://127.0.0.1:9").is_err());
    assert_eq!(AllowedOrigin::parse_with("http://127.0.0.1:9/", true).unwrap().as_str(), "http://127.0.0.1:9");
}

#[test]
fn defaults_round_trip() {
    assert_eq!(AllowedOrigin::crates_io_default().as_str(), "https://crates.io");
    assert_eq!(AllowedOrigin::docs_rs_default().as_str(), "https://docs.rs");
}

#[test]
fn to_url_round_trips_defaults() {
    let o = AllowedOrigin::docs_rs_default();
    let u = o.to_url().unwrap();
    assert_eq!(u.scheme(), "https");
    assert_eq!(u.host_str(), Some("docs.rs"));
    assert_eq!(u.as_str().trim_end_matches('/'), o.as_str());
}

#[test]
fn search_query_search_query_rules() {
    assert!(SearchQuery::parse("", false).is_err());
    assert_eq!(SearchQuery::parse("  ", true).unwrap().as_str(), "");
    assert_eq!(SearchQuery::parse("serde", false).unwrap().as_str(), "serde");
    assert!(SearchQuery::parse(&"q".repeat(MAX_QUERY_CHARS + 1), false).is_err());
    assert!(SearchQuery::parse("evil\0null", false).is_err());
    assert!(SearchQuery::parse("bad\nline", false).is_err());
    assert!(SearchQuery::parse("evil\u{200B}zwsp", false).is_err());
    assert!(SearchQuery::parse("evil\u{202E}bidi", false).is_err());
    assert!(SearchQuery::parse("evil\u{FEFF}bom", false).is_err());
}

#[test]
fn search_query_transparent_layout() {
    assert_eq!(size_of::<SearchQuery>(), size_of::<String>());
}

#[test]
fn version_version_arg_policy() {
    assert_eq!(VersionArg::parse_opt(None).unwrap().as_str(), "latest");
    assert_eq!(VersionArg::parse_opt(Some("")).unwrap().as_str(), "latest");
    assert_eq!(VersionArg::parse("1.0.0").unwrap().as_str(), "1.0.0");
    assert_eq!(VersionArg::parse("stable").unwrap().stdlib_channel(), "stable");
    assert_eq!(VersionArg::parse("latest").unwrap().stdlib_channel(), "stable");
    assert!(VersionArg::parse("v1.0.0").is_err());
    assert!(VersionArg::parse("1.0.0+build").is_err());
    assert!(VersionArg::parse("not-a-version").is_err());
}

#[test]
fn version_arg_transparent_layout() {
    assert_eq!(size_of::<VersionArg>(), size_of::<String>());
}

// Library-specific checks beyond the original suite.

#[test]
fn item_path_error_messages_are_exact() {
    assert_eq!(ItemPath::parse("").unwrap_err().message(), "item path is empty");
    assert_eq!(ItemPath::parse("/").unwrap_err().message(), "item path is empty");
    assert_eq!(ItemPath::parse("a::::/").unwrap().segments(), &["a".to_string()]);
    assert_eq!(ItemPath::parse(":: ::").unwrap_err().message(), "item path has no segments");
    assert_eq!(ItemPath::parse("a/../b").unwrap_err().message(), "invalid item path segment '..'");
    assert_eq!(
        ItemPath::parse("a:: b c ::d").unwrap_err().message(),
        "item path segment contains whitespace: 'b c'"
    );
    let e = ItemPath::parse("foo.bar").unwrap_err();
    assert_eq!(e.kind(), ErrorKind::InvalidInput);
    assert!(e.message().starts_with("invalid item path segment 'foo.bar' (use letters"));
    assert_eq!(
        ItemPath::parse(&"b".repeat(MAX_ITEM_PATH_CHARS + 1)).unwrap_err().message(),
        "item path exceeds 512 characters"
    );
    let p = ItemPath::parse("  a/b  ").unwrap();
    assert_eq!(p.as_str(), "a/b");
    assert_eq!(p.clone().into_segments(), vec!["a".to_string(), "b".to_string()]);
}

#[test]
fn origin_rejections_carry_their_detail() {
    let e = AllowedOrigin::parse("ftp://docs.rs").unwrap_err();
    assert_eq!(e.kind(), ErrorKind::Config);
    let e = AllowedOrigin::parse("https://evil.example").unwrap_err();
    assert!(e.message().contains("evil.example"));
    assert!(e.message().contains("crates.io, docs.rs, static.docs.rs, doc.rust-lang.org"));
    assert!(AllowedOrigin::parse("not-a-url").unwrap_err().source().is_some());
    assert_eq!(AllowedOrigin::stdlib_docs_default().as_str(), "https://doc.rust-lang.org");
    assert_eq!(AllowedOrigin::parse("  https://crates.io/api/v1/  ").unwrap().as_str(), "https://crates.io");
    assert_eq!(AllowedOrigin::parse_with("https://localhost:8443", true).unwrap().to_string(), "https://localhost:8443");
}
