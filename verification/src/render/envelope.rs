//! Typed envelopes for the agent contract (success, dry-run, error).

use vstd::prelude::*;

use crate::config::SCHEMA_VERSION;
use crate::error::app_error::AppError;
use crate::error::detail::ErrorDetail;
use crate::error::classify::detail_retryable;
use crate::error::kind::{kind_exit_code, kind_name, ErrorKind};
use crate::error::suggestion::{copy_suggestions, Suggestion};

verus! {

/// Success envelope (`schema_version`, `ok`, `command`, `data`, `duration_ms`,
/// optional `source_url`).
#[derive(Debug)]
pub struct SuccessEnvelope<'a, T> {
    /// Envelope schema version.
    pub schema_version: u32,
    /// `true` for success envelopes (`doctor` may report `false`).
    pub ok: bool,
    /// Command name that produced this payload.
    pub command: &'a str,
    /// Command-specific typed data payload.
    pub data: T,
    /// Wall-clock duration of the command in milliseconds.
    pub duration_ms: u64,
    /// Final source URL when the command fetched remote content.
    pub source_url: Option<&'a str>,
}

/// Dry-run envelope with the planned URL and parameters.
#[derive(Debug)]
pub struct DryRunEnvelope<'a, P> {
    /// Envelope schema version.
    pub schema_version: u32,
    /// Always `true` for dry-run envelopes.
    pub ok: bool,
    /// Command name that would have run.
    pub command: &'a str,
    /// Always `true`: marks the response as a dry-run plan.
    pub dry_run: bool,
    /// Planned request details.
    pub data: DryRunData<'a, P>,
    /// Wall-clock duration until the plan was emitted.
    pub duration_ms: u64,
}

/// Dry-run `data` object (`planned_url` + typed `planned_params`).
#[derive(Debug)]
pub struct DryRunData<'a, P> {
    /// Absolute URL that would be requested.
    pub planned_url: &'a str,
    /// Command-specific planned parameters.
    pub planned_params: P,
}

/// Error envelope for agents: `command` and `duration_ms` as on success.
#[derive(Debug)]
pub struct ErrorEnvelope<'a> {
    /// Envelope schema version.
    pub schema_version: u32,
    /// Always `false` for error envelopes.
    pub ok: bool,
    /// Wire command name (`get-item`, `usage`, ...).
    pub command: &'a str,
    /// Wall-clock duration of the attempt in milliseconds.
    pub duration_ms: u64,
    /// Structured error body.
    pub error: ErrorBody,
}

/// Error body fields inside the envelope.
#[derive(Debug)]
pub struct ErrorBody {
    /// Process exit code.
    pub code: u8,
    /// Snake_case error kind.
    pub kind: String,
    /// Technical English message.
    pub message: String,
    /// Whether an agent may retry after backoff.
    pub retryable: bool,
    /// Optional Retry-After seconds.
    pub retry_after_secs: Option<u64>,
    /// Ranked `--suggest` alternatives, best first; absent when there are none.
    pub suggestions: Option<Vec<Suggestion>>,
}

/// Build a success envelope.
pub fn success_envelope<'a, T>(
    command: &'a str,
    data: T,
    duration_ms: u64,
    source_url: Option<&'a str>,
) -> (r: SuccessEnvelope<'a, T>)
    ensures
        r.schema_version == SCHEMA_VERSION,
        r.ok,
        r.command == command,
        r.data == data,
        r.duration_ms == duration_ms,
        r.source_url == source_url,
{
    success_envelope_with_ok(command, data, duration_ms, source_url, true)
}

/// Build a success-shaped envelope with an explicit top-level `ok` (used by `doctor`).
pub fn success_envelope_with_ok<'a, T>(
    command: &'a str,
    data: T,
    duration_ms: u64,
    source_url: Option<&'a str>,
    ok: bool,
) -> (r: SuccessEnvelope<'a, T>)
    ensures
        r.schema_version == SCHEMA_VERSION,
        r.ok == ok,
        r.command == command,
        r.data == data,
        r.duration_ms == duration_ms,
        r.source_url == source_url,
{
    SuccessEnvelope { schema_version: SCHEMA_VERSION, ok, command, data, duration_ms, source_url }
}

/// Build a dry-run envelope with the planned URL and parameters.
pub fn dry_run_envelope<'a, P>(
    command: &'a str,
    planned_url: &'a str,
    planned_params: P,
    duration_ms: u64,
) -> (r: DryRunEnvelope<'a, P>)
    ensures
        r.schema_version == SCHEMA_VERSION,
        r.ok,
        r.dry_run,
        r.command == command,
        r.data.planned_url == planned_url,
        r.data.planned_params == planned_params,
        r.duration_ms == duration_ms,
{
    DryRunEnvelope {
        schema_version: SCHEMA_VERSION,
        ok: true,
        command,
        dry_run: true,
        data: DryRunData { planned_url, planned_params },
        duration_ms,
    }
}

/// Kind label on the wire: both cancel signals read `canceled`.
pub open spec fn envelope_kind(k: ErrorKind) -> Seq<char> {
    if k == ErrorKind::Interrupted || k == ErrorKind::Terminated {
        "canceled"@
    } else if k == ErrorKind::BrokenPipe {
        "broken_pipe"@
    } else {
        kind_name(k)
    }
}

/// Suggestions an error publishes as data: its ranked list, when non-empty.
pub open spec fn published_suggestions(d: ErrorDetail) -> Option<Seq<Suggestion>> {
    match d {
        ErrorDetail::WithSuggestions { suggestions, .. } => if suggestions@.len() > 0 {
            Some(suggestions@)
        } else {
            None
        },
        _ => None,
    }
}

/// Build an error envelope: exit code and kind label follow the error's kind
/// (SIGINT/SIGTERM surface as `canceled`); `retryable` is the error's own
/// retryability, which for I/O failures follows the OS cause.
pub fn error_envelope<'a>(err: &AppError, command: &'a str, duration_ms: u64) -> (r: ErrorEnvelope<'a>)
    ensures
        r.schema_version == SCHEMA_VERSION,
        !r.ok,
        r.command == command,
        r.duration_ms == duration_ms,
        r.error.code == kind_exit_code(err.kind_of()),
        r.error.kind@ == envelope_kind(err.kind_of()),
        r.error.message@ == err.message_of(),
        r.error.retryable == detail_retryable(err.detail_of()),
        r.error.retry_after_secs == err.retry_after_of(),
        match (r.error.suggestions, published_suggestions(err.detail_of())) {
            (Some(a), Some(b)) => a@ == b,
            (None, None) => true,
            _ => false,
        },
{
    let kind = err.kind();
    let kind_str: &str = match kind {
        ErrorKind::Interrupted | ErrorKind::Terminated => "canceled",
        ErrorKind::BrokenPipe => "broken_pipe",
        other => other.as_str(),
    };
    let suggestions = match err.suggestions() {
        Some(s) => {
            if s.len() > 0 {
                Some(copy_suggestions(s))
            } else {
                None
            }
        },
        None => None,
    };
    ErrorEnvelope {
        schema_version: SCHEMA_VERSION,
        ok: false,
        command,
        duration_ms,
        error: ErrorBody {
            code: kind.exit_code(),
            kind: kind_str.to_owned(),
            message: err.message().to_owned(),
            retryable: err.retryable(),
            retry_after_secs: err.retry_after_secs(),
            suggestions,
        },
    }
}

/// Map a command-line parse failure to a usage error.
pub fn usage_error(msg: &str) -> (r: AppError)
    ensures
        r.wf(),
        r.detail_of() matches ErrorDetail::ClapUsage { message } && message@ == msg@,
        r.kind_of() == ErrorKind::Usage,
{
    AppError::of(ErrorDetail::ClapUsage { message: msg.to_owned() })
}

} // verus!
