use docsrs_cli::config::Config;
use docsrs_cli::error::ErrorKind;
use docsrs_cli::retry::{
    backoff_full_jitter, backoff_full_jitter_seeded, classify_http_status, classify_reqwest_error,
    parse_retry_after, parse_retry_after_at, politeness_delay, politeness_delay_seeded,
    retry_after_from_date, wait_for_retry, ErrorLayer, RetryClass, RetryConfig, RetryKind, TransportError,
    HARD_MAX_DELAY_MS, HARD_MAX_RETRIES, MIN_RETRY_BASE_MS,
};
use std::time::{Duration, SystemTime};

#[test]
fn max_attempts_respects_kill_switch() {
    let mut p = RetryConfig::default();
    assert_eq!(p.max_attempts(), 4);
    p.enabled = false;
    assert_eq!(p.max_attempts(), 1);
    assert!(!p.may_retry(1));
}

#[test]
fn from_config_disable_and_clamp() {
    let cfg = Config {
        disable_retry: true,
        max_retries: 99,
        retry_max_delay_ms: 999_999,
        retry_base_ms: 10,
        retry_max_elapsed_ms: 0,
        timeout_secs: 12,
        ..Config::default()
    };
    let p = RetryConfig::from_config(&cfg);
    assert!(!p.enabled);
    assert_eq!(p.max_retries, HARD_MAX_RETRIES);
    assert_eq!(p.max_delay_ms, HARD_MAX_DELAY_MS);
    assert_eq!(p.base_ms, MIN_RETRY_BASE_MS);
    assert_eq!(p.max_elapsed_ms, 12_000);
    assert_eq!(p.max_attempts(), 1);
}

#[test]
fn from_config_explicit_max_elapsed() {
    let cfg = Config { retry_max_elapsed_ms: 5_000, retry_base_ms: 200, retry_max_delay_ms: 1_000, ..Config::default() };
    let p = RetryConfig::from_config(&cfg);
    assert_eq!(p.max_elapsed_ms, 5_000);
}

#[test]
fn may_retry_within_budget_blocks_oversleep() {
    let p = RetryConfig { max_retries: 5, base_ms: 100, max_delay_ms: 1_000, max_elapsed_ms: 500, enabled: true };
    assert!(p.may_retry_within_budget(1, 0, 400));
    assert!(!p.may_retry_within_budget(1, 0, 600));
    assert!(!p.may_retry_within_budget(1, 500, 0));
}

#[test]
fn backoff_respects_cap() {
    let d = backoff_full_jitter(200, 20, 1_000);
    assert!(d <= 1_000);
}

#[test]
fn backoff_seeded_is_deterministic() {
    let a = backoff_full_jitter_seeded(200, 3, 10_000, 42);
    let b = backoff_full_jitter_seeded(200, 3, 10_000, 42);
    assert_eq!(a, b);
    for seed in 0..64u64 {
        for attempt in 0..8u32 {
            let d = backoff_full_jitter_seeded(100, attempt, 500, seed);
            assert!(d <= 500);
        }
    }
}

#[test]
fn politeness_delay_zero_stays_zero() {
    assert_eq!(politeness_delay(0), 0);
}

#[test]
fn politeness_delay_never_below_floor() {
    let base = 1_000;
    for _ in 0..32 {
        let d = politeness_delay(base);
        assert!(d >= base, "delay {d:?} below floor {base:?}");
        assert!(d <= base + 200, "delay {d:?} above floor+20%");
    }
}

#[test]
fn classify_matrix() {
    assert_eq!(classify_http_status(200, None), RetryClass::Permanent);
    assert_eq!(classify_http_status(404, None), RetryClass::Permanent);
    assert_eq!(classify_http_status(400, None), RetryClass::Permanent);
    assert_eq!(classify_http_status(500, None), RetryClass::Transient);
    assert_eq!(classify_http_status(408, None), RetryClass::Transient);
    assert_eq!(
        classify_http_status(429, Some(2_000)),
        RetryClass::RateLimited { retry_after: Some(2_000) }
    );
    assert_eq!(
        classify_http_status(503, Some(1_000)),
        RetryClass::RateLimited { retry_after: Some(1_000) }
    );
    assert_eq!(classify_http_status(503, None), RetryClass::Transient);
    assert_eq!(classify_http_status(401, None), RetryClass::Permanent);
    assert_eq!(classify_http_status(403, None), RetryClass::Permanent);
    assert_eq!(classify_http_status(422, None), RetryClass::Permanent);
}

#[test]
fn parse_retry_after_seconds_and_http_date() {
    assert_eq!(parse_retry_after(Some("7")), Some(7_000));
    assert_eq!(parse_retry_after(Some("")), None);

    let future = SystemTime::now() + Duration::from_secs(2);
    let http_date = httpdate::fmt_http_date(future);
    let d = parse_retry_after(Some(&http_date)).expect("HTTP-date Retry-After");
    assert!(d <= 3_000, "got {d:?}");
    assert!(d >= 500, "got {d:?}");

    let past = SystemTime::UNIX_EPOCH + Duration::from_secs(1_000_000);
    let past_s = httpdate::fmt_http_date(past);
    assert_eq!(parse_retry_after(Some(&past_s)), None);
}

#[test]
fn wait_prefers_retry_after() {
    let p = RetryConfig::default();
    let w = wait_for_retry(p, 1, Some(3_000));
    assert_eq!(w, 3_000);
}

#[test]
fn retry_kind_labels() {
    assert_eq!(RetryKind::Timeout.as_str(), "timeout");
    assert!(RetryKind::TransientNetwork.is_retryable());
    assert!(!RetryKind::Permanent.is_retryable());
    assert_eq!(ErrorLayer::TcpConnect.as_str(), "tcp_connect");
}

// Library-specific checks beyond the original suite.

#[test]
fn retry_after_at_a_fixed_clock() {
    assert_eq!(parse_retry_after_at(Some(" 120 "), 0), Some(HARD_MAX_DELAY_MS));
    assert_eq!(parse_retry_after_at(Some("99999999999999999999999"), 0), None);
    assert_eq!(parse_retry_after_at(None, 0), None);
    assert_eq!(retry_after_from_date(10, 9_000), Some(1_000));
    assert_eq!(retry_after_from_date(10, 10_500), Some(0));
    assert_eq!(retry_after_from_date(10, 11_001), None);
    assert_eq!(retry_after_from_date(1_000, 0), Some(HARD_MAX_DELAY_MS));
    let when = SystemTime::UNIX_EPOCH + Duration::from_secs(1_700_000_000);
    let text = httpdate::fmt_http_date(when);
    assert_eq!(parse_retry_after_at(Some(&text), 1_700_000_000_000 - 4_000), Some(4_000));
}

#[test]
fn jitter_and_politeness_formulas() {
    assert_eq!(backoff_full_jitter_seeded(200, 3, 10_000, 1_601), 0);
    assert_eq!(backoff_full_jitter_seeded(200, 3, 10_000, 1_600), 1_600);
    assert_eq!(backoff_full_jitter_seeded(0, 0, 0, 5), 1);
    assert_eq!(politeness_delay_seeded(1_000, 200), 1_200);
    assert_eq!(politeness_delay_seeded(1_000, 201), 1_000);
    assert_eq!(politeness_delay_seeded(3, 1), 4);
    assert_eq!(wait_for_retry(RetryConfig::default(), 1, Some(90_000)), HARD_MAX_DELAY_MS);
}

#[test]
fn transport_classification_prefers_tls() {
    let tls_timeout = TransportError { timeout: true, tls: true, connect: true, request: false, body_or_decode: false };
    assert_eq!(classify_reqwest_error(&tls_timeout), (ErrorKind::Timeout, ErrorLayer::Tls, true));
    let connect = TransportError { timeout: false, tls: false, connect: true, request: true, body_or_decode: false };
    assert_eq!(classify_reqwest_error(&connect), (ErrorKind::Network, ErrorLayer::TcpConnect, true));
    let nothing = TransportError { timeout: false, tls: false, connect: false, request: false, body_or_decode: false };
    assert_eq!(classify_reqwest_error(&nothing), (ErrorKind::Network, ErrorLayer::Unknown, false));
    assert_eq!(RetryConfig::default().remaining_budget(40_000), 0);
    assert_eq!(RetryConfig::default().remaining_budget(1_000), 29_000);
}
