//! The decisions of the request loop: host checks and what to do after each attempt.
//!
//! The loop itself (send, sleep, read the body) runs in the application; after
//! each attempt it hands the outcome here and performs the action it gets back.

use vstd::prelude::*;

use crate::config::origin_allowed;
use crate::error::app_error::AppError;
use crate::error::detail::ErrorDetail;
use crate::error::kind::ErrorKind;
use crate::retry::{
    attempts_of, jitter_pick, min_u64, status_class, transport_class, wait_for_retry, RetryClass,
    RetryConfig, TransportError, HARD_MAX_DELAY_MS,
};
use crate::text::push_str;

verus! {

/// What one HTTP attempt produced.
pub enum AttemptOutcome {
    /// A response arrived with this status and parsed `Retry-After` (milliseconds).
    Status { status: u16, retry_after: Option<u64> },
    /// The transport failed; `cause` is the text of the underlying error.
    Transport { error: TransportError, cause: String },
}

/// What the request loop does next.
pub enum AttemptAction {
    /// Sleep this many milliseconds, then try again.
    Retry { wait_ms: u64 },
    /// Keep the response: read its body and let the caller map its status.
    Accept,
    /// Give up with this error.
    Fail(AppError),
}

/// `w` is a wait the policy may choose after `attempt` given the server hint:
/// the hint capped at the hard ceiling, or some full-jitter draw.
pub open spec fn valid_wait(policy: RetryConfig, attempt: u32, hint: Option<u64>, w: u64) -> bool {
    match hint {
        Some(d) => w == min_u64(d, HARD_MAX_DELAY_MS),
        None => exists|seed: u64| w == #[trigger] jitter_pick(policy.base_ms, attempt, policy.max_delay_ms, seed),
    }
}

/// Another attempt after waiting `w` fits both the attempt and the elapsed budget.
pub open spec fn within_budget(policy: RetryConfig, attempt: u32, elapsed_ms: u64, w: u64) -> bool {
    policy.enabled && attempt < attempts_of(policy) && elapsed_ms < policy.max_elapsed_ms && w
        <= policy.max_elapsed_ms - elapsed_ms
}

/// `e` reports an HTTP status whose retries ran out, with the given hint.
pub open spec fn exhausted_error(e: AppError, status: u16, retry_after: Option<u64>) -> bool {
    &&& e.wf()
    &&& e.retry_after_of() == retry_after
    &&& match e.detail_of() {
        ErrorDetail::HttpStatus { status: s, hint } => s == status && hint@ == "retries exhausted"@,
        _ => false,
    }
}

/// Retry or give up, for a retryable outcome with server hint `hint`.
pub open spec fn retry_or(
    r: AttemptAction,
    policy: RetryConfig,
    attempt: u32,
    elapsed_ms: u64,
    hint: Option<u64>,
    fail: spec_fn(AppError) -> bool,
) -> bool {
    match r {
        AttemptAction::Retry { wait_ms } => valid_wait(policy, attempt, hint, wait_ms)
            && within_budget(policy, attempt, elapsed_ms, wait_ms),
        AttemptAction::Fail(e) => fail(e) && exists|w: u64|
            #[trigger] valid_wait(policy, attempt, hint, w) && !within_budget(
                policy,
                attempt,
                elapsed_ms,
                w,
            ),
        AttemptAction::Accept => false,
    }
}

/// Seconds announced to agents when a rate limit exhausted the retries:
/// the server's hint in whole seconds, at least one.
pub open spec fn exhausted_secs(hint: Option<u64>) -> u64 {
    let secs = match hint {
        Some(ms) => ms / 1000,
        None => 1,
    };
    if secs >= 1 { secs } else { 1 }
}

/// The decision after an attempt.
pub open spec fn decision_ok(
    r: AttemptAction,
    policy: RetryConfig,
    attempt: u32,
    elapsed_ms: u64,
    url: Seq<char>,
    outcome: AttemptOutcome,
) -> bool {
    match outcome {
        AttemptOutcome::Status { status, retry_after } => match status_class(status, retry_after) {
            RetryClass::Permanent => r is Accept,
            RetryClass::RateLimited { retry_after: hint } => retry_or(
                r,
                policy,
                attempt,
                elapsed_ms,
                hint,
                |e: AppError| exhausted_error(e, status, Some(exhausted_secs(hint))),
            ),
            RetryClass::Transient => retry_or(
                r,
                policy,
                attempt,
                elapsed_ms,
                None,
                |e: AppError| exhausted_error(e, status, None),
            ),
        },
        AttemptOutcome::Transport { error, cause } => {
            let (kind, _layer, retryable) = transport_class(error);
            let fail = |e: AppError|
                e.wf() && e.kind_of() == kind && e.message_of() == "http request failed for "@ + url
                    && e.source_of() == Some(cause@);
            if retryable {
                retry_or(r, policy, attempt, elapsed_ms, None, fail)
            } else {
                r matches AttemptAction::Fail(e) && fail(e)
            }
        },
    }
}

/// A failing server is never taken as the answer: after a 408, a 429 or a
/// 500, 502, 503 or 504 the loop retries after a wait that fits the attempt
/// and elapsed budgets, and gives up only when a wait the policy could choose
/// no longer fits them; a success is always kept.
pub proof fn lemma_server_failures_are_retried(
    r: AttemptAction,
    policy: RetryConfig,
    attempt: u32,
    elapsed_ms: u64,
    url: Seq<char>,
    status: u16,
    retry_after: Option<u64>,
)
    requires
        decision_ok(
            r,
            policy,
            attempt,
            elapsed_ms,
            url,
            AttemptOutcome::Status { status, retry_after },
        ),
    ensures
        status == 408 || status == 429 || status == 500 || status == 502 || status == 503
            || status == 504 ==> {
            &&& !(r is Accept)
            &&& r matches AttemptAction::Retry { wait_ms } ==> within_budget(
                policy,
                attempt,
                elapsed_ms,
                wait_ms,
            )
            &&& r is Fail ==> exists|w: u64| !within_budget(policy, attempt, elapsed_ms, w)
        },
        200 <= status < 300 ==> r is Accept,
{
    crate::retry::lemma_status_retry_classes(status, retry_after);
}

fn retry_or_fail(
    policy: RetryConfig,
    attempt: u32,
    elapsed_ms: u64,
    hint: Option<u64>,
    fail: AppError,
) -> (r: AttemptAction)
    ensures
        match r {
            AttemptAction::Retry { wait_ms } => valid_wait(policy, attempt, hint, wait_ms)
                && within_budget(policy, attempt, elapsed_ms, wait_ms),
            AttemptAction::Fail(e) => e == fail && exists|w: u64|
                #[trigger] valid_wait(policy, attempt, hint, w) && !within_budget(
                    policy,
                    attempt,
                    elapsed_ms,
                    w,
                ),
            AttemptAction::Accept => false,
        },
{
    let wait = wait_for_retry(policy, attempt, hint);
    proof {
        assert(valid_wait(policy, attempt, hint, wait));
    }
    if policy.may_retry_within_budget(attempt, elapsed_ms, wait) {
        AttemptAction::Retry { wait_ms: wait }
    } else {
        AttemptAction::Fail(fail)
    }
}

/// Decide what the request loop does after attempt number `attempt`
/// (1-based), `elapsed_ms` into the loop: 2xx and permanent statuses are kept;
/// rate limits (honouring `Retry-After`) and transient statuses retry while the
/// attempt and elapsed budgets allow a wait, else fail as exhausted; transport
/// failures retry when their class allows it, else fail with their kind.
pub fn decide_attempt(
    policy: RetryConfig,
    attempt: u32,
    elapsed_ms: u64,
    url: &str,
    outcome: AttemptOutcome,
) -> (r: AttemptAction)
    ensures
        decision_ok(r, policy, attempt, elapsed_ms, url@, outcome),
{
    let ghost o = outcome;
    match outcome {
        AttemptOutcome::Status { status, retry_after } => {
            match crate::retry::classify_http_status(status, retry_after) {
                RetryClass::Permanent => AttemptAction::Accept,
                RetryClass::RateLimited { retry_after: hint } => {
                    let secs = match hint {
                        Some(ms) => ms / 1000,
                        None => 1,
                    };
                    let secs = if secs >= 1 { secs } else { 1 };
                    let e = AppError::from_http_status(status, "retries exhausted").with_retry_after(
                        secs,
                    );
                    retry_or_fail(policy, attempt, elapsed_ms, hint, e)
                },
                RetryClass::Transient => {
                    let e = AppError::from_http_status(status, "retries exhausted");
                    retry_or_fail(policy, attempt, elapsed_ms, None, e)
                },
            }
        },
        AttemptOutcome::Transport { error, cause } => {
            let (kind, _layer, retryable) = crate::retry::classify_reqwest_error(&error);
            let mut m = String::new();
            push_str(&mut m, "http request failed for ");
            push_str(&mut m, url);
            let e = AppError::with_source(kind, m.as_str(), cause.as_str());
            if retryable {
                retry_or_fail(policy, attempt, elapsed_ms, None, e)
            } else {
                AttemptAction::Fail(e)
            }
        },
    }
}

/// `e` reports that `host` failed the allowlist at the given point.
pub open spec fn host_refused_error(e: AppError, prefix: Seq<char>, host: Seq<char>) -> bool {
    e.wf() && e.kind_of() == ErrorKind::Network && e.message_of() == prefix + host
}

/// SSRF check on a request URL (`scheme`, and `host` when it has one): allowed
/// only for an allowlisted host over a scheme the allowlist admits.
pub fn check_request_host(scheme: &str, host: Option<&str>, allow_loopback: bool) -> (r: Result<(), AppError>)
    ensures
        match host {
            Some(h) => if origin_allowed(scheme@, h@, allow_loopback) {
                r is Ok
            } else {
                r matches Err(e) && host_refused_error(e, "host not allowlisted: "@, h@)
            },
            None => r matches Err(e) && host_refused_error(e, "host not allowlisted: "@, Seq::empty()),
        },
{
    screen_host("host not allowlisted: ", scheme, host, allow_loopback)
}

/// The same check on the URL a response finally came from, so a redirect
/// regression cannot leak an off-allowlist body.
pub fn check_final_host(scheme: &str, host: Option<&str>, allow_loopback: bool) -> (r: Result<(), AppError>)
    ensures
        match host {
            Some(h) => if origin_allowed(scheme@, h@, allow_loopback) {
                r is Ok
            } else {
                r matches Err(e) && host_refused_error(e, "final URL host not allowlisted: "@, h@)
            },
            None => r matches Err(e) && host_refused_error(
                e,
                "final URL host not allowlisted: "@,
                Seq::empty(),
            ),
        },
{
    screen_host("final URL host not allowlisted: ", scheme, host, allow_loopback)
}

fn screen_host(prefix: &str, scheme: &str, host: Option<&str>, allow_loopback: bool) -> (r: Result<(), AppError>)
    ensures
        match host {
            Some(h) => if origin_allowed(scheme@, h@, allow_loopback) {
                r is Ok
            } else {
                r matches Err(e) && host_refused_error(e, prefix@, h@)
            },
            None => r matches Err(e) && host_refused_error(e, prefix@, Seq::empty()),
        },
{
    match host {
        Some(h) => {
            if crate::config::is_allowed_origin_scheme_host(scheme, h, allow_loopback) {
                Ok(())
            } else {
                let mut m = String::new();
                push_str(&mut m, prefix);
                push_str(&mut m, h);
                Err(AppError::new(ErrorKind::Network, m.as_str()))
            }
        },
        None => {
            let mut m = String::new();
            push_str(&mut m, prefix);
            proof {
                assert(m@ == prefix@ + Seq::<char>::empty());
            }
            Err(AppError::new(ErrorKind::Network, m.as_str()))
        },
    }
}

} // verus!
