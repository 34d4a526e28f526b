//! Explicit HTTP retry policy: attempt and elapsed budgets, full-jitter backoff,
//! `Retry-After` handling and politeness delays.
//!
//! Durations are whole milliseconds. The delay formula is
//!
//! ```text
//! cap(n)  = min(base_ms * 2^min(n, 16), max_delay_ms)
//! delay   = uniform(0..=cap)   // full jitter
//! ```
//!
//! A `Retry-After` value (delta-seconds or HTTP-date) overrides the formula for
//! 429/503 when present. Past HTTP-dates within 1s of skew mean no wait; older
//! past dates fall back to the formula.

use std::hash::BuildHasher;

use vstd::prelude::*;

use crate::config::Config;
use crate::error::kind::ErrorKind;
use crate::text::{chars_of, opt_str, string_of, trim, trim_chars};

verus! {

/// Default maximum retries after the first attempt (total attempts = N+1).
pub const DEFAULT_MAX_RETRIES: u32 = 3;
/// Default base backoff in milliseconds.
pub const DEFAULT_RETRY_BASE_MS: u64 = 200;
/// Default ceiling for a single backoff sleep (milliseconds).
pub const DEFAULT_RETRY_MAX_DELAY_MS: u64 = 30_000;
/// Hard cap on configured retries.
pub const HARD_MAX_RETRIES: u32 = 10;
/// Hard ceiling for a single delay (milliseconds).
pub const HARD_MAX_DELAY_MS: u64 = 60_000;
/// Minimum allowed base delay.
pub const MIN_RETRY_BASE_MS: u64 = 50;
/// Hard ceiling for total retry wall time including sleeps (milliseconds).
pub const HARD_MAX_ELAPSED_MS: u64 = 300_000;
/// Default total retry budget when not overridden.
pub const DEFAULT_RETRY_MAX_ELAPSED_MS: u64 = 30_000;
/// Clock-skew tolerance for past HTTP-date `Retry-After` values, in milliseconds.
pub const RETRY_AFTER_SKEW_MS: u64 = 1_000;

/// Smaller of two values.
pub open spec fn min_u64(a: u64, b: u64) -> u64 {
    if a <= b { a } else { b }
}

/// Larger of two values.
pub open spec fn max_u64(a: u64, b: u64) -> u64 {
    if a >= b { a } else { b }
}

/// Saturating product.
pub open spec fn sat_mul(a: u64, b: u64) -> u64 {
    if a * b > u64::MAX { u64::MAX } else { (a * b) as u64 }
}

/// Saturating sum.
pub open spec fn sat_add(a: u64, b: u64) -> u64 {
    if a + b > u64::MAX { u64::MAX } else { (a + b) as u64 }
}

/// Two to the power `n`.
pub open spec fn pow2(n: nat) -> nat
    decreases n,
{
    if n == 0 { 1 } else { 2 * pow2((n - 1) as nat) }
}

fn min_exec(a: u64, b: u64) -> (r: u64)
    ensures
        r == min_u64(a, b),
{
    if a <= b { a } else { b }
}

fn max_exec(a: u64, b: u64) -> (r: u64)
    ensures
        r == max_u64(a, b),
{
    if a >= b { a } else { b }
}

fn sat_mul_exec(a: u64, b: u64) -> (r: u64)
    ensures
        r == sat_mul(a, b),
{
    match a.checked_mul(b) {
        Some(p) => p,
        None => u64::MAX,
    }
}

fn sat_add_exec(a: u64, b: u64) -> (r: u64)
    ensures
        r == sat_add(a, b),
{
    match a.checked_add(b) {
        Some(p) => p,
        None => u64::MAX,
    }
}

/// Named retry policy for the product HTTP client (one dependency class).
#[derive(Debug, Clone, Copy, PartialEq, Eq, Structural)]
pub struct RetryConfig {
    /// Retries after the first attempt (`0` = single try).
    pub max_retries: u32,
    /// Exponential base delay in milliseconds.
    pub base_ms: u64,
    /// Maximum single sleep in milliseconds.
    pub max_delay_ms: u64,
    /// Total wall budget for the retry loop (attempts + sleeps), milliseconds.
    pub max_elapsed_ms: u64,
    /// Kill switch: when false, never retries.
    pub enabled: bool,
}

/// The policy a runtime configuration resolves to (clamped).
pub open spec fn retry_config_of(cfg: Config) -> RetryConfig {
    let max_retries: u32 = if cfg.max_retries <= HARD_MAX_RETRIES {
        cfg.max_retries
    } else {
        HARD_MAX_RETRIES
    };
    let base_ms = if cfg.retry_base_ms == 0 {
        DEFAULT_RETRY_BASE_MS
    } else {
        max_u64(cfg.retry_base_ms, MIN_RETRY_BASE_MS)
    };
    let max_delay_ms = max_u64(min_u64(cfg.retry_max_delay_ms, HARD_MAX_DELAY_MS), base_ms);
    let derived = max_u64(sat_mul(cfg.timeout_secs, 1000), 1000);
    let max_elapsed_ms = if cfg.retry_max_elapsed_ms == 0 {
        min_u64(derived, HARD_MAX_ELAPSED_MS)
    } else {
        max_u64(min_u64(cfg.retry_max_elapsed_ms, HARD_MAX_ELAPSED_MS), max_delay_ms)
    };
    RetryConfig {
        max_retries,
        base_ms,
        max_delay_ms,
        max_elapsed_ms,
        enabled: !cfg.disable_retry && max_retries > 0,
    }
}

/// Total attempts a policy allows, the first try included.
pub open spec fn attempts_of(p: RetryConfig) -> u32 {
    if !p.enabled {
        1
    } else if p.max_retries == u32::MAX {
        u32::MAX
    } else {
        (p.max_retries + 1) as u32
    }
}

/// Upper bound of the full-jitter draw for an attempt.
pub open spec fn jitter_cap(base_ms: u64, attempt: u32, max_delay_ms: u64) -> u64 {
    let base = max_u64(base_ms, 1);
    let max_delay = max_u64(max_delay_ms, base);
    let shift: nat = if attempt <= 16 { attempt as nat } else { 16 };
    min_u64(sat_mul(base, pow2(shift) as u64), max_delay)
}

/// The full-jitter draw for a given seed.
pub open spec fn jitter_pick(base_ms: u64, attempt: u32, max_delay_ms: u64, seed: u64) -> u64 {
    (seed % sat_add(jitter_cap(base_ms, attempt, max_delay_ms), 1)) as u64
}

/// Politeness delay for a given seed: the floor plus up to a fifth of it.
pub open spec fn politeness_pick(base_ms: u64, seed: u64) -> u64 {
    if base_ms == 0 {
        0
    } else {
        let span = max_u64((base_ms / 5) as u64, 1);
        sat_add(base_ms, (seed % sat_add(span, 1)) as u64)
    }
}

impl RetryConfig {
    /// Resolve policy from runtime config (clamped): retries at most
    /// [`HARD_MAX_RETRIES`], base at least [`MIN_RETRY_BASE_MS`] (`0` means the
    /// default), single delay at most [`HARD_MAX_DELAY_MS`] but never below the
    /// base, elapsed budget derived from the wall timeout when `0`.
    pub fn from_config(cfg: &Config) -> (r: Self)
        ensures
            r == retry_config_of(*cfg),
    {
        let max_retries: u32 = if cfg.max_retries <= HARD_MAX_RETRIES {
            cfg.max_retries
        } else {
            HARD_MAX_RETRIES
        };
        let base_ms = if cfg.retry_base_ms == 0 {
            DEFAULT_RETRY_BASE_MS
        } else {
            max_exec(cfg.retry_base_ms, MIN_RETRY_BASE_MS)
        };
        let max_delay_ms = max_exec(min_exec(cfg.retry_max_delay_ms, HARD_MAX_DELAY_MS), base_ms);
        let derived = max_exec(sat_mul_exec(cfg.timeout_secs, 1000), 1000);
        let max_elapsed_ms = if cfg.retry_max_elapsed_ms == 0 {
            min_exec(derived, HARD_MAX_ELAPSED_MS)
        } else {
            max_exec(min_exec(cfg.retry_max_elapsed_ms, HARD_MAX_ELAPSED_MS), max_delay_ms)
        };
        let enabled = !cfg.disable_retry && max_retries > 0;
        RetryConfig { max_retries, base_ms, max_delay_ms, max_elapsed_ms, enabled }
    }

    /// Total attempts including the first try.
    pub fn max_attempts(self) -> (r: u32)
        ensures
            r == attempts_of(self),
    {
        if !self.enabled {
            1
        } else if self.max_retries == u32::MAX {
            u32::MAX
        } else {
            self.max_retries + 1
        }
    }

    /// Whether another attempt is allowed after `attempt` (1-based completed count).
    pub fn may_retry(self, attempt: u32) -> (r: bool)
        ensures
            r == (self.enabled && attempt < attempts_of(self)),
    {
        self.enabled && attempt < self.max_attempts()
    }

    /// Whether another attempt is allowed given the attempt count **and** the
    /// elapsed budget: a planned wait that would exceed the remaining budget
    /// aborts retry (no sleep past budget).
    pub fn may_retry_within_budget(self, attempt: u32, elapsed_ms: u64, planned_wait_ms: u64) -> (r: bool)
        ensures
            r == (self.enabled && attempt < attempts_of(self) && elapsed_ms < self.max_elapsed_ms
                && planned_wait_ms <= self.max_elapsed_ms - elapsed_ms),
            r ==> elapsed_ms + planned_wait_ms <= self.max_elapsed_ms,
    {
        if !self.may_retry(attempt) {
            return false;
        }
        if elapsed_ms >= self.max_elapsed_ms {
            return false;
        }
        let remaining = self.max_elapsed_ms - elapsed_ms;
        planned_wait_ms <= remaining
    }

    /// Remaining time in the elapsed budget (zero when exhausted).
    pub fn remaining_budget(self, elapsed_ms: u64) -> (r: u64)
        ensures
            r == (if elapsed_ms >= self.max_elapsed_ms {
                0
            } else {
                self.max_elapsed_ms - elapsed_ms
            }),
    {
        if elapsed_ms >= self.max_elapsed_ms {
            0
        } else {
            self.max_elapsed_ms - elapsed_ms
        }
    }

    /// Full-jitter delay for this attempt number (1-based): some draw in
    /// `0..=cap`, never above the single-delay ceiling.
    pub fn delay_for_attempt(self, attempt: u32) -> (r: u64)
        ensures
            exists|seed: u64| r == #[trigger] jitter_pick(self.base_ms, attempt, self.max_delay_ms, seed),
            r <= jitter_cap(self.base_ms, attempt, self.max_delay_ms),
    {
        backoff_full_jitter(self.base_ms, attempt, self.max_delay_ms)
    }
}

impl Default for RetryConfig {
    fn default() -> (r: Self)
        ensures
            r == (RetryConfig {
                max_retries: DEFAULT_MAX_RETRIES,
                base_ms: DEFAULT_RETRY_BASE_MS,
                max_delay_ms: DEFAULT_RETRY_MAX_DELAY_MS,
                max_elapsed_ms: DEFAULT_RETRY_MAX_ELAPSED_MS,
                enabled: true,
            }),
    {
        RetryConfig {
            max_retries: DEFAULT_MAX_RETRIES,
            base_ms: DEFAULT_RETRY_BASE_MS,
            max_delay_ms: DEFAULT_RETRY_MAX_DELAY_MS,
            max_elapsed_ms: DEFAULT_RETRY_MAX_ELAPSED_MS,
            enabled: true,
        }
    }
}

/// A resolved policy is coherent: retries within the hard cap, base at least
/// the minimum, single delay never below the base and within the hard ceiling
/// unless the base itself is above it, an explicit elapsed budget never below
/// the single delay, a derived one within the hard ceiling, and retries
/// enabled only when some retry is allowed.
pub proof fn lemma_retry_config_coherent(cfg: Config)
    ensures
        ({
            let p = retry_config_of(cfg);
            &&& p.max_retries <= HARD_MAX_RETRIES
            &&& p.base_ms >= MIN_RETRY_BASE_MS
            &&& p.max_delay_ms >= p.base_ms
            &&& p.max_delay_ms <= max_u64(HARD_MAX_DELAY_MS, p.base_ms)
            &&& cfg.retry_max_elapsed_ms != 0 ==> p.max_elapsed_ms >= p.max_delay_ms
            &&& cfg.retry_max_elapsed_ms == 0 ==> 1000 <= p.max_elapsed_ms <= HARD_MAX_ELAPSED_MS
            &&& p.enabled ==> p.max_retries >= 1 && !cfg.disable_retry
            &&& 1 <= attempts_of(p) <= HARD_MAX_RETRIES + 1
        }),
{
}

/// The kill switch and the retry count decide the attempts: with retries
/// disabled there is exactly one attempt; otherwise one first try plus the
/// configured retries (at most [`HARD_MAX_RETRIES`]), so a single configured
/// retry already enables retrying and only `0` turns it off.
pub proof fn lemma_attempts_follow_config(cfg: Config)
    ensures
        ({
            let p = retry_config_of(cfg);
            let clamped: u32 = if cfg.max_retries <= HARD_MAX_RETRIES {
                cfg.max_retries
            } else {
                HARD_MAX_RETRIES
            };
            &&& p.enabled <==> (!cfg.disable_retry && clamped > 0)
            &&& attempts_of(p) == (if cfg.disable_retry {
                1
            } else {
                clamped + 1
            })
        }),
{
}

/// Classification of an HTTP status for in-process retry.
#[derive(Debug, Clone, Copy, PartialEq, Eq, Structural)]
pub enum RetryClass {
    /// Do not retry (4xx client errors, success, unknown permanent).
    Permanent,
    /// Retry with exponential full-jitter backoff (5xx / 408).
    Transient,
    /// Retry respecting the optional `Retry-After` (429, and 503 with header).
    RateLimited {
        /// Parsed `Retry-After` wait in milliseconds, when present.
        retry_after: Option<u64>,
    },
}

/// Detailed retry category exposed on errors.
#[derive(Debug, Clone, Copy, PartialEq, Eq, Structural)]
pub enum RetryKind {
    /// Never auto-retry (validation, 4xx, parse, budget, cancel).
    Permanent,
    /// Transport / connect failure (may retry).
    TransientNetwork,
    /// Remote 5xx / temporary unavailability (may retry).
    TransientServer,
    /// HTTP 429 with optional `Retry-After` (may retry).
    RateLimited,
    /// Wall or request timeout (may retry).
    Timeout,
}

/// Transport / protocol layer of a failure.
#[derive(Debug, Clone, Copy, PartialEq, Eq, Structural)]
pub enum ErrorLayer {
    /// Name resolution (when distinguishable; else folded into `TcpConnect`).
    Dns,
    /// TCP connect / peer unreachable (includes DNS when not separated).
    TcpConnect,
    /// TLS handshake failure (when distinguishable).
    Tls,
    /// HTTP/1.1 or HTTP/2 protocol error after connect.
    HttpProtocol,
    /// HTTP status from a completed response.
    HttpStatus,
    /// Application / parse / budget after a successful body read.
    Application,
    /// Unclassified.
    Unknown,
}

/// Stable label of a layer.
pub open spec fn layer_name(l: ErrorLayer) -> Seq<char> {
    match l {
        ErrorLayer::Dns => "dns"@,
        ErrorLayer::TcpConnect => "tcp_connect"@,
        ErrorLayer::Tls => "tls"@,
        ErrorLayer::HttpProtocol => "http_protocol"@,
        ErrorLayer::HttpStatus => "http_status"@,
        ErrorLayer::Application => "application"@,
        ErrorLayer::Unknown => "unknown"@,
    }
}

/// Stable label of a retry kind.
pub open spec fn retry_kind_name(k: RetryKind) -> Seq<char> {
    match k {
        RetryKind::Permanent => "permanent"@,
        RetryKind::TransientNetwork => "transient_network"@,
        RetryKind::TransientServer => "transient_server"@,
        RetryKind::RateLimited => "rate_limited"@,
        RetryKind::Timeout => "timeout"@,
    }
}

impl ErrorLayer {
    /// Stable snake_case label for logs and doctor detail.
    pub fn as_str(self) -> (r: &'static str)
        ensures
            r@ == layer_name(self),
    {
        match self {
            Self::Dns => "dns",
            Self::TcpConnect => "tcp_connect",
            Self::Tls => "tls",
            Self::HttpProtocol => "http_protocol",
            Self::HttpStatus => "http_status",
            Self::Application => "application",
            Self::Unknown => "unknown",
        }
    }
}

impl RetryKind {
    /// Stable snake_case label.
    pub fn as_str(self) -> (r: &'static str)
        ensures
            r@ == retry_kind_name(self),
    {
        match self {
            Self::Permanent => "permanent",
            Self::TransientNetwork => "transient_network",
            Self::TransientServer => "transient_server",
            Self::RateLimited => "rate_limited",
            Self::Timeout => "timeout",
        }
    }

    /// Whether this kind is eligible for in-process or agent retry.
    pub fn is_retryable(self) -> (r: bool)
        ensures
            r == (self != RetryKind::Permanent),
    {
        !matches!(self, Self::Permanent)
    }
}

/// Retry class of an HTTP status (GET-only product).
pub open spec fn status_class(status: u16, retry_after: Option<u64>) -> RetryClass {
    if status == 429 {
        RetryClass::RateLimited { retry_after }
    } else if status == 408 || status == 500 || status == 502 || status == 504 {
        RetryClass::Transient
    } else if status == 503 {
        if retry_after is Some {
            RetryClass::RateLimited { retry_after }
        } else {
            RetryClass::Transient
        }
    } else {
        RetryClass::Permanent
    }
}

/// Classify an HTTP status for in-process retry: 429 is rate limited, 408 and
/// 500/502/504 are transient, 503 follows `Retry-After` when present,
/// everything else is permanent.
pub fn classify_http_status(status: u16, retry_after: Option<u64>) -> (r: RetryClass)
    ensures
        r == status_class(status, retry_after),
{
    if status == 429 {
        RetryClass::RateLimited { retry_after }
    } else if status == 408 || status == 500 || status == 502 || status == 504 {
        RetryClass::Transient
    } else if status == 503 {
        if retry_after.is_some() {
            RetryClass::RateLimited { retry_after }
        } else {
            RetryClass::Transient
        }
    } else {
        RetryClass::Permanent
    }
}

/// Which statuses the request loop retries, whatever `Retry-After` says:
/// a request timeout and the server-side failures 500, 502 and 504 are
/// transient; 503 is transient without a hint and waits for the hint with
/// one; 429 always waits for its hint; successes, redirects and every other
/// client error are kept as they are.
pub proof fn lemma_status_retry_classes(status: u16, hint: Option<u64>)
    ensures
        status == 408 || status == 500 || status == 502 || status == 504 ==> status_class(
            status,
            hint,
        ) == RetryClass::Transient,
        status == 503 && hint is None ==> status_class(status, hint) == RetryClass::Transient,
        status == 503 && hint is Some ==> status_class(status, hint) == (RetryClass::RateLimited {
            retry_after: hint,
        }),
        status == 429 ==> status_class(status, hint) == (RetryClass::RateLimited {
            retry_after: hint,
        }),
        (200 <= status < 400 || (400 <= status < 500 && status != 408 && status != 429))
            ==> status_class(status, hint) == RetryClass::Permanent,
        status != 408 && status != 429 && status != 500 && status != 502 && status != 503 && status
            != 504 ==> status_class(status, hint) == RetryClass::Permanent,
{
}

/// What a failed transport attempt reports about itself.
#[derive(Debug, Clone, Copy, PartialEq, Eq, Structural)]
pub struct TransportError {
    /// A connect or total timeout elapsed.
    pub timeout: bool,
    /// A TLS library error appears in the source chain.
    pub tls: bool,
    /// The connection could not be established.
    pub connect: bool,
    /// The request failed after dialing (protocol, HTTP/2 stream).
    pub request: bool,
    /// Reading or decoding the body failed.
    pub body_or_decode: bool,
}

/// Kind, layer and in-process retryability of a transport failure.
pub open spec fn transport_class(e: TransportError) -> (ErrorKind, ErrorLayer, bool) {
    if e.timeout {
        (ErrorKind::Timeout, if e.tls { ErrorLayer::Tls } else { ErrorLayer::TcpConnect }, true)
    } else if e.tls {
        (ErrorKind::Network, ErrorLayer::Tls, true)
    } else if e.connect {
        (ErrorKind::Network, ErrorLayer::TcpConnect, true)
    } else if e.request {
        (ErrorKind::Network, ErrorLayer::HttpProtocol, true)
    } else if e.body_or_decode {
        (ErrorKind::Network, ErrorLayer::HttpProtocol, false)
    } else {
        (ErrorKind::Network, ErrorLayer::Unknown, false)
    }
}

/// Classify a transport error without string-matching messages: a TLS error
/// in the chain labels the layer `Tls` even when the failure was a timeout.
pub fn classify_reqwest_error(err: &TransportError) -> (r: (ErrorKind, ErrorLayer, bool))
    ensures
        r == transport_class(*err),
{
    if err.timeout {
        let layer = if err.tls { ErrorLayer::Tls } else { ErrorLayer::TcpConnect };
        return (ErrorKind::Timeout, layer, true);
    }
    if err.tls {
        return (ErrorKind::Network, ErrorLayer::Tls, true);
    }
    if err.connect {
        return (ErrorKind::Network, ErrorLayer::TcpConnect, true);
    }
    if err.request {
        return (ErrorKind::Network, ErrorLayer::HttpProtocol, true);
    }
    if err.body_or_decode {
        return (ErrorKind::Network, ErrorLayer::HttpProtocol, false);
    }
    (ErrorKind::Network, ErrorLayer::Unknown, false)
}

/// What `httpdate::parse_http_date` makes of a text, as whole seconds since
/// the UNIX epoch.
pub uninterp spec fn http_date_secs(raw: Seq<char>) -> Option<u64>;

/// `httpdate::parse_http_date`, converted to whole seconds since the UNIX
/// epoch; the contract only claims that the result is [`http_date_secs`] of
/// the input.
#[verifier::external_body]
fn parse_http_date_secs(raw: &str) -> (r: Option<u64>)
    ensures
        r == http_date_secs(raw@),
{
    match httpdate::parse_http_date(raw) {
        Ok(t) => match t.duration_since(std::time::UNIX_EPOCH) {
            Ok(d) => Some(d.as_secs()),
            Err(_) => None,
        },
        Err(_) => None,
    }
}

/// `SystemTime::now`, in milliseconds since the UNIX epoch (saturated); nothing
/// is claimed about the value, which depends on the clock.
#[verifier::external_body]
fn now_unix_millis() -> (r: u64) {
    match std::time::SystemTime::now().duration_since(std::time::UNIX_EPOCH) {
        Ok(d) => u64::try_from(d.as_millis()).unwrap_or(u64::MAX),
        Err(_) => 0,
    }
}

/// A fresh pseudo-random value from a randomly keyed std hasher over `salt`;
/// nothing is claimed about the value.
#[verifier::external_body]
fn entropy(salt: u64) -> (r: u64) {
    std::collections::hash_map::RandomState::new().hash_one(salt)
}

/// An ASCII decimal digit.
pub open spec fn is_digit(c: char) -> bool {
    '0' <= c && c <= '9'
}

/// Value of a string of decimal digits.
pub open spec fn digits_value(s: Seq<char>) -> nat
    decreases s.len(),
{
    if s.len() == 0 {
        0
    } else {
        digits_value(s.drop_last()) * 10 + ((s.last() as u32) - ('0' as u32)) as nat
    }
}

/// Wait until an HTTP-date given the current time: the remaining time capped at
/// the hard delay ceiling, nothing for a date at most the skew tolerance in the
/// past, and no answer (fall back to the formula) for an older date.
pub open spec fn date_wait(when_secs: u64, now_ms: u64) -> Option<u64> {
    let when_ms = when_secs * 1000;
    if when_ms >= now_ms {
        Some(if when_ms - now_ms <= HARD_MAX_DELAY_MS { (when_ms - now_ms) as u64 } else { HARD_MAX_DELAY_MS })
    } else if now_ms - when_ms <= RETRY_AFTER_SKEW_MS {
        Some(0)
    } else {
        None
    }
}

/// Wait, in milliseconds, that a `Retry-After` header value asks for at time
/// `now_ms`: delta-seconds (capped at the hard delay ceiling) when the trimmed
/// value is all digits, else an HTTP-date; `None` when absent, blank or
/// unparseable.
pub open spec fn retry_after_wait(raw: Option<Seq<char>>, now_ms: u64) -> Option<u64> {
    match raw {
        None => None,
        Some(r) => {
            let t = trim(r);
            if t.len() == 0 {
                None
            } else if forall|i: int| 0 <= i < t.len() ==> is_digit(#[trigger] t[i]) {
                if digits_value(t) <= u64::MAX {
                    Some(
                        if digits_value(t) <= HARD_MAX_DELAY_MS / 1000 {
                            (digits_value(t) * 1000) as u64
                        } else {
                            HARD_MAX_DELAY_MS
                        },
                    )
                } else {
                    None
                }
            } else {
                match http_date_secs(t) {
                    None => None,
                    Some(w) => date_wait(w, now_ms),
                }
            }
        },
    }
}

/// Decimal value of an all-digit text, `None` when it does not fit in `u64`.
fn parse_digits(t: &[char]) -> (r: Option<u64>)
    requires
        forall|i: int| 0 <= i < t@.len() ==> is_digit(#[trigger] t@[i]),
    ensures
        match r {
            Some(v) => v == digits_value(t@),
            None => digits_value(t@) > u64::MAX,
        },
{
    let mut v: u64 = 0;
    let mut i: usize = 0;
    while i < t.len()
        invariant
            0 <= i <= t@.len(),
            forall|k: int| 0 <= k < t@.len() ==> is_digit(#[trigger] t@[k]),
            v == digits_value(t@.take(i as int)),
        decreases t@.len() - i,
    {
        proof {
            assert(t@.take(i + 1).drop_last() == t@.take(i as int));
            assert(t@.take(i + 1).last() == t@[i as int]);
            assert(is_digit(t@[i as int]));
        }
        let d = (t[i] as u32 - '0' as u32) as u64;
        let next = match v.checked_mul(10) {
            Some(x) => x.checked_add(d),
            None => None,
        };
        match next {
            Some(x) => {
                v = x;
            },
            None => {
                proof {
                    lemma_digits_value_prefix_grows(t@, i as int + 1);
                }
                return None;
            },
        }
        i = i + 1;
    }
    proof {
        assert(t@.take(i as int) == t@);
    }
    Some(v)
}

/// The value of a digit string is at least that of each of its prefixes.
pub proof fn lemma_digits_value_prefix_grows(s: Seq<char>, j: int)
    requires
        0 <= j <= s.len(),
    ensures
        digits_value(s.take(j)) <= digits_value(s),
    decreases s.len() - j,
{
    if j < s.len() {
        lemma_digits_value_prefix_grows(s, j + 1);
        assert(s.take(j + 1).drop_last() == s.take(j));
    } else {
        assert(s.take(j) == s);
    }
}

/// [`retry_after_wait`] at a given clock reading.
pub fn parse_retry_after_at(raw: Option<&str>, now_ms: u64) -> (r: Option<u64>)
    ensures
        r == retry_after_wait(opt_str(raw), now_ms),
{
    let s = match raw {
        Some(s) => s,
        None => {
            return None;
        },
    };
    let v = chars_of(s);
    let t = trim_chars(v.as_slice());
    if t.len() == 0 {
        return None;
    }
    let mut all_digits = true;
    let mut i: usize = 0;
    while i < t.len()
        invariant
            0 <= i <= t@.len(),
            all_digits == (forall|k: int| 0 <= k < i ==> is_digit(#[trigger] t@[k])),
        decreases t@.len() - i,
    {
        if !('0' <= t[i] && t[i] <= '9') {
            all_digits = false;
        }
        i = i + 1;
        proof {
            if !all_digits {
                assert(!is_digit(t@[i - 1]) || exists|k: int| 0 <= k < i - 1 && !is_digit(#[trigger] t@[k]));
            }
        }
    }
    if all_digits {
        return match parse_digits(t.as_slice()) {
            Some(secs) => Some(
                if secs <= HARD_MAX_DELAY_MS / 1000 {
                    secs * 1000
                } else {
                    HARD_MAX_DELAY_MS
                },
            ),
            None => None,
        };
    }
    let ts = string_of(t.as_slice());
    match parse_http_date_secs(ts.as_str()) {
        None => None,
        Some(w) => retry_after_from_date(w, now_ms),
    }
}

/// [`date_wait`]: the wait until an HTTP-date at a given clock reading.
pub fn retry_after_from_date(when_secs: u64, now_ms: u64) -> (r: Option<u64>)
    ensures
        r == date_wait(when_secs, now_ms),
{
    let when_ms: u128 = when_secs as u128 * 1000;
    let now: u128 = now_ms as u128;
    if when_ms >= now {
        let d = when_ms - now;
        if d <= HARD_MAX_DELAY_MS as u128 {
            Some(d as u64)
        } else {
            Some(HARD_MAX_DELAY_MS)
        }
    } else if now - when_ms <= RETRY_AFTER_SKEW_MS as u128 {
        Some(0)
    } else {
        None
    }
}

/// Parse `Retry-After` (the header value as text, when present and readable)
/// as delta-seconds or an HTTP-date, reading the clock for the latter.
pub fn parse_retry_after(raw: Option<&str>) -> (r: Option<u64>)
    ensures
        exists|now: u64| r == #[trigger] retry_after_wait(opt_str(raw), now),
        r matches Some(ms) ==> ms <= HARD_MAX_DELAY_MS,
{
    let now = now_unix_millis();
    let r = parse_retry_after_at(raw, now);
    proof {
        lemma_retry_after_wait_bounded(opt_str(raw), now);
    }
    r
}

/// Every `Retry-After` wait is within the hard delay ceiling.
pub proof fn lemma_retry_after_wait_bounded(raw: Option<Seq<char>>, now_ms: u64)
    ensures
        retry_after_wait(raw, now_ms) matches Some(ms) ==> ms <= HARD_MAX_DELAY_MS,
{
}

fn pow2_exec(n: u32) -> (r: u64)
    requires
        n <= 16,
    ensures
        r == pow2(n as nat),
{
    let mut p: u64 = 1;
    let mut i: u32 = 0;
    while i < n
        invariant
            0 <= i <= n <= 16,
            p == pow2(i as nat),
        decreases n - i,
    {
        proof {
            lemma_pow2_mono((i + 1) as nat, 16);
            reveal_with_fuel(pow2, 17);
        }
        p = p * 2;
        i = i + 1;
    }
    p
}

/// Powers of two grow with the exponent.
proof fn lemma_pow2_mono(a: nat, b: nat)
    requires
        a <= b,
    ensures
        pow2(a) <= pow2(b),
    decreases b,
{
    if a < b {
        lemma_pow2_mono(a, (b - 1) as nat);
    }
}

/// Full jitter with an explicit seed: `seed mod (cap + 1)` where
/// `cap = min(base * 2^min(attempt, 16), max_delay)`.
pub fn backoff_full_jitter_seeded(base_ms: u64, attempt: u32, max_delay_ms: u64, seed: u64) -> (r: u64)
    ensures
        r == jitter_pick(base_ms, attempt, max_delay_ms, seed),
        r <= jitter_cap(base_ms, attempt, max_delay_ms),
        r <= max_u64(max_delay_ms, max_u64(base_ms, 1)),
{
    let base = max_exec(base_ms, 1);
    let max_delay = max_exec(max_delay_ms, base);
    let shift: u32 = if attempt <= 16 { attempt } else { 16 };
    let exp = sat_mul_exec(base, pow2_exec(shift));
    let cap = min_exec(exp, max_delay);
    let m = sat_add_exec(cap, 1);
    seed % m
}

/// Full jitter: some draw in `0..=min(base*2^attempt, max_delay)`, with
/// per-call entropy (not cryptographic).
pub fn backoff_full_jitter(base_ms: u64, attempt: u32, max_delay_ms: u64) -> (r: u64)
    ensures
        exists|seed: u64| r == #[trigger] jitter_pick(base_ms, attempt, max_delay_ms, seed),
        r <= jitter_cap(base_ms, attempt, max_delay_ms),
{
    let seed = entropy(attempt as u64);
    backoff_full_jitter_seeded(base_ms, attempt, max_delay_ms, seed)
}

/// Politeness draw with an explicit seed: the floor plus `seed mod (span + 1)`
/// where `span = max(base / 5, 1)`; zero stays zero.
pub fn politeness_delay_seeded(base_ms: u64, seed: u64) -> (r: u64)
    ensures
        r == politeness_pick(base_ms, seed),
{
    if base_ms == 0 {
        return 0;
    }
    let span = max_exec(base_ms / 5, 1);
    let extra = seed % sat_add_exec(span, 1);
    sat_add_exec(base_ms, extra)
}

/// Per-host politeness delay with additive jitter: never below the
/// configured floor, at most a fifth above it; zero stays zero.
pub fn politeness_delay(base_ms: u64) -> (r: u64)
    ensures
        exists|seed: u64| r == #[trigger] politeness_pick(base_ms, seed),
        base_ms == 0 ==> r == 0,
        base_ms <= r,
        base_ms + max_u64((base_ms / 5) as u64, 1) <= u64::MAX ==> r <= base_ms + max_u64(
            (base_ms / 5) as u64,
            1,
        ),
{
    let seed = entropy(base_ms);
    politeness_delay_seeded(base_ms, seed)
}

/// Prefer the server's `Retry-After` when present (capped only by the hard
/// delay ceiling, never shortened to the policy's own ceiling); otherwise the
/// full-jitter formula.
pub fn wait_for_retry(policy: RetryConfig, attempt: u32, retry_after: Option<u64>) -> (r: u64)
    ensures
        match retry_after {
            Some(d) => r == min_u64(d, HARD_MAX_DELAY_MS),
            None => r <= jitter_cap(policy.base_ms, attempt, policy.max_delay_ms) && exists|seed: u64|
                r == #[trigger] jitter_pick(policy.base_ms, attempt, policy.max_delay_ms, seed),
        },
{
    match retry_after {
        Some(d) => min_exec(d, HARD_MAX_DELAY_MS),
        None => policy.delay_for_attempt(attempt),
    }
}

} // verus!
