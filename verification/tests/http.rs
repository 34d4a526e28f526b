use bytes::Bytes;
use docsrs_cli::error::ErrorKind;
use docsrs_cli::http::attempt::{check_final_host, check_request_host};
use docsrs_cli::http::body::{accept_chunk, body_capacity, check_cached_body};
use docsrs_cli::http::constants::RUSTLS_VERSION_FLOOR;
use docsrs_cli::http::rate_limit::{in_process_wait, lock_file_name, safe_host_name, stamp_file_name, stamp_wait};
use docsrs_cli::http::{
    ascii_contains_ignore_case, client_posture_detail, content_type_looks_html, content_type_looks_json,
    decide_attempt, decode_utf8, require_content_type_html, require_content_type_json, AttemptAction,
    AttemptOutcome, POOL_IDLE_TIMEOUT_SECS, POOL_MAX_IDLE_PER_HOST, TCP_KEEPALIVE_IDLE_SECS,
    TCP_KEEPALIVE_INTERVAL_SECS, TCP_KEEPALIVE_RETRIES,
};
use docsrs_cli::retry::{RetryConfig, TransportError};
use url::Url;

fn is_allowed_host(url: &Url, allow_loopback: bool) -> bool {
    check_request_host(url.scheme(), url.host_str(), allow_loopback).is_ok()
}

fn content_types_body() {
    assert!(content_type_looks_json(Some("application/json; charset=utf-8")));
    assert!(content_type_looks_json(Some("Application/JSON")));
    assert!(content_type_looks_html(Some("text/html")));
    assert!(content_type_looks_html(Some("Text/HTML; charset=utf-8")));
    assert!(content_type_looks_html(Some("application/xhtml+xml")));
    assert!(!content_type_looks_json(Some("text/html")));
    assert!(!content_type_looks_json(None));
    assert!(!content_type_looks_html(None));
    assert!(require_content_type_json(None).is_ok());
    assert!(require_content_type_json(Some("application/json")).is_ok());
    assert!(require_content_type_json(Some("text/html")).is_err());
    assert!(require_content_type_html(None).is_ok());
    assert!(require_content_type_html(Some("text/html")).is_ok());
    assert!(require_content_type_html(Some("application/json")).is_err());
}

fn ascii_edges_body() {
    assert!(ascii_contains_ignore_case("abJSON", "json"));
    assert!(ascii_contains_ignore_case("json", "json"));
    assert!(!ascii_contains_ignore_case("js", "json"));
    assert!(ascii_contains_ignore_case("x", ""));
}

#[test]
fn http_allowlist_https_only() {
    let ok = Url::parse("https://docs.rs/serde").unwrap();
    assert!(is_allowed_host(&ok, false));
    let stdlib = Url::parse("https://doc.rust-lang.org/stable/std/").unwrap();
    assert!(is_allowed_host(&stdlib, false));
    let bad = Url::parse("http://docs.rs/serde").unwrap();
    assert!(!is_allowed_host(&bad, false));
    let evil = Url::parse("https://evil.example/").unwrap();
    assert!(!is_allowed_host(&evil, false));
}

#[test]
fn http_utf8_bom_strip() {
    let mut v = vec![0xEF, 0xBB, 0xBF];
    v.extend_from_slice(b"hello");
    let s = decode_utf8(&Bytes::from(v)).unwrap();
    assert_eq!(s, "hello");
}

#[test]
fn http_content_types() {
    content_types_body();
}

#[test]
fn http_ascii_contains_ignore_case_edges() {
    ascii_edges_body();
}

#[test]
fn http_decode_utf8_rejects_invalid() {
    let err = decode_utf8(&Bytes::from(vec![0xff, 0xfe])).unwrap_err();
    assert_eq!(err.kind(), ErrorKind::Parse);
}

#[test]
fn mod_allowlist_https_only() {
    let ok = Url::parse("https://docs.rs/serde").unwrap();
    assert!(is_allowed_host(&ok, false));
    let stdlib = Url::parse("https://doc.rust-lang.org/stable/std/").unwrap();
    assert!(is_allowed_host(&stdlib, false));
    let bad = Url::parse("http://docs.rs/serde").unwrap();
    assert!(!is_allowed_host(&bad, false));
    let evil = Url::parse("https://evil.example/").unwrap();
    assert!(!is_allowed_host(&evil, false));
}

#[test]
fn mod_utf8_bom_strip() {
    let mut v = vec![0xEF, 0xBB, 0xBF];
    v.extend_from_slice(b"hello");
    let s = decode_utf8(&Bytes::from(v)).unwrap();
    assert_eq!(s, "hello");
}

#[test]
fn mod_content_types() {
    content_types_body();
}

#[test]
fn mod_ascii_contains_ignore_case_edges() {
    ascii_edges_body();
}

#[test]
fn localhost_requires_allow_loopback_flag() {
    let ok = Url::parse("http://127.0.0.1:9/x").unwrap();
    assert!(!is_allowed_host(&ok, false));
    assert!(is_allowed_host(&ok, true));
    let local = Url::parse("http://localhost:9/x").unwrap();
    assert!(!is_allowed_host(&local, false));
    assert!(is_allowed_host(&local, true));
}

#[test]
fn mod_decode_utf8_rejects_invalid() {
    let err = decode_utf8(&Bytes::from(vec![0xff, 0xfe])).unwrap_err();
    assert_eq!(err.kind(), ErrorKind::Parse);
}

#[test]
fn named_socket_and_pool_constants_are_sane() {
    assert_eq!(POOL_MAX_IDLE_PER_HOST, 2);
    assert_eq!(POOL_IDLE_TIMEOUT_SECS, 30);
    assert_eq!(TCP_KEEPALIVE_IDLE_SECS, 60);
    assert_eq!(TCP_KEEPALIVE_INTERVAL_SECS, 10);
    assert_eq!(TCP_KEEPALIVE_RETRIES, 3);
}

#[test]
fn client_posture_mentions_tls_http2_and_proxy() {
    let d = client_posture_detail();
    assert!(d.contains("rustls"));
    assert!(d.contains("provider=ring"));
    assert!(d.contains("c-build-dep(ring)"));
    assert!(d.contains("pure-rust-blocked"));
    assert!(d.contains(RUSTLS_VERSION_FLOOR));
    assert!(d.contains("http2"));
    assert!(d.contains("system-proxy"));
    assert!(d.contains("tcp_nodelay"));
    assert!(d.contains("host-allowlist"));
}

// Library-specific checks beyond the original suite.

#[test]
fn posture_line_is_exact() {
    assert_eq!(
        client_posture_detail(),
        "rustls≥0.23.18 provider=ring posture=c-build-dep(ring); pure-rust-blocked(graviola:needs-adx, rustcrypto:webpki-advisories) TLS≥1.2 webpki-roots http2 system-proxy tcp_nodelay keepalive=60s/10s/r3 pool_idle=2@30s host-allowlist no-danger-tls"
    );
}

#[test]
fn decode_keeps_non_bom_text_and_names_the_cause() {
    assert_eq!(decode_utf8("áé".as_bytes()).unwrap(), "áé");
    assert_eq!(decode_utf8(&[0xEF, 0xBB]).unwrap_err().kind(), ErrorKind::Parse);
    let e = decode_utf8(&[0x61, 0xC3]).unwrap_err();
    assert_eq!(e.message(), "response body is not valid UTF-8");
    assert!(e.source().is_some());
}

#[test]
fn content_type_rejection_names_what_arrived() {
    let e = require_content_type_json(Some("text/csv")).unwrap_err();
    assert_eq!(e.kind(), ErrorKind::Parse);
    assert!(e.message().contains("text/csv"));
}

#[test]
fn body_budget_checks() {
    assert_eq!(body_capacity(Some(10), 100).unwrap(), 10);
    assert_eq!(body_capacity(None, 100).unwrap(), 0);
    assert_eq!(body_capacity(Some(101), 100).unwrap_err().kind(), ErrorKind::Budget);
    assert!(accept_chunk(60, 40, 100).is_ok());
    assert!(accept_chunk(60, 41, 100).is_err());
    assert!(accept_chunk(u64::MAX, u64::MAX, u64::MAX).is_err());
    assert!(check_cached_body(5, 5).is_ok());
    let e = check_cached_body(6, 5).unwrap_err();
    assert_eq!(e.message(), "cached response body exceeds max_body_bytes (5)");
}

#[test]
fn final_url_check_names_the_host() {
    assert!(check_final_host("https", Some("static.docs.rs"), false).is_ok());
    let e = check_final_host("https", Some("evil.example"), false).unwrap_err();
    assert_eq!(e.message(), "final URL host not allowlisted: evil.example");
    assert_eq!(e.kind(), ErrorKind::Network);
    let e = check_request_host("https", None, false).unwrap_err();
    assert_eq!(e.message(), "host not allowlisted: ");
}

#[test]
fn attempt_decisions_follow_status_class_and_budget() {
    let p = RetryConfig { max_retries: 3, base_ms: 100, max_delay_ms: 1_000, max_elapsed_ms: 10_000, enabled: true };
    match decide_attempt(p, 1, 0, "https://docs.rs/x", AttemptOutcome::Status { status: 200, retry_after: None }) {
        AttemptAction::Accept => {}
        _ => panic!("200 must be accepted"),
    }
    match decide_attempt(p, 1, 0, "https://docs.rs/x", AttemptOutcome::Status { status: 404, retry_after: None }) {
        AttemptAction::Accept => {}
        _ => panic!("404 is permanent"),
    }
    match decide_attempt(p, 1, 0, "https://docs.rs/x", AttemptOutcome::Status { status: 429, retry_after: Some(2_000) }) {
        AttemptAction::Retry { wait_ms } => assert_eq!(wait_ms, 2_000),
        _ => panic!("429 with budget left must retry"),
    }
    match decide_attempt(p, 4, 0, "https://docs.rs/x", AttemptOutcome::Status { status: 429, retry_after: Some(2_500) }) {
        AttemptAction::Fail(e) => {
            assert_eq!(e.kind(), ErrorKind::RateLimited);
            assert_eq!(e.retry_after_secs(), Some(2));
        }
        _ => panic!("attempts exhausted"),
    }
    match decide_attempt(p, 1, 9_999, "https://docs.rs/x", AttemptOutcome::Status { status: 503, retry_after: Some(5_000) }) {
        AttemptAction::Fail(e) => assert_eq!(e.kind(), ErrorKind::Unavailable),
        _ => panic!("a wait past the elapsed budget must fail"),
    }
    match decide_attempt(p, 1, 0, "https://docs.rs/x", AttemptOutcome::Status { status: 500, retry_after: None }) {
        AttemptAction::Retry { wait_ms } => assert!(wait_ms <= 200),
        _ => panic!("500 is transient"),
    }
    let refused = TransportError { timeout: false, tls: false, connect: false, request: false, body_or_decode: true };
    match decide_attempt(p, 1, 0, "https://docs.rs/x", AttemptOutcome::Transport { error: refused, cause: "eof".into() }) {
        AttemptAction::Fail(e) => {
            assert_eq!(e.kind(), ErrorKind::Network);
            assert_eq!(e.message(), "http request failed for https://docs.rs/x");
            assert_eq!(e.source(), Some("eof"));
        }
        _ => panic!("a body failure is not retried here"),
    }
    let timeout = TransportError { timeout: true, tls: false, connect: false, request: false, body_or_decode: false };
    let off = RetryConfig { enabled: false, ..p };
    match decide_attempt(off, 1, 0, "u", AttemptOutcome::Transport { error: timeout, cause: "t".into() }) {
        AttemptAction::Fail(e) => assert_eq!(e.kind(), ErrorKind::Timeout),
        _ => panic!("retries disabled"),
    }
}

#[test]
fn throttle_names_and_waits() {
    assert_eq!(safe_host_name("docs.rs"), "docs.rs");
    assert_eq!(safe_host_name("127.0.0.1:9"), "127.0.0.1_9");
    assert_eq!(safe_host_name(""), "unknown");
    assert_eq!(stamp_file_name("crates.io"), "crates.io.stamp");
    assert_eq!(lock_file_name("a/b"), "a_b.lock");
    assert_eq!(in_process_wait(300, 1_000), Some(700));
    assert_eq!(in_process_wait(1_000, 1_000), None);
    assert_eq!(stamp_wait(" 1000\n", 1_400, 1_000), Some(600));
    assert_eq!(stamp_wait("1000", 900, 1_000), Some(1_000));
    assert_eq!(stamp_wait("1000", 5_000, 1_000), None);
    assert_eq!(stamp_wait("garbage", 5_000, 1_000), None);
    assert_eq!(stamp_wait("", 5_000, 1_000), None);
}
