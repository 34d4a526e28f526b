//! Canonical error kinds and their process exit codes.

use vstd::prelude::*;

use crate::retry::RetryKind;

verus! {

/// Clap / argv usage error (sysexits `EX_USAGE`).
pub const EXIT_USAGE: u8 = 64;
/// Domain validation failure (invalid crate name, path, pagination).
pub const EXIT_INVALID_INPUT: u8 = 65;
/// Remote resource missing (HTTP 404).
pub const EXIT_NOT_FOUND: u8 = 66;
/// Rate limit or temporary remote unavailability (HTTP 429/5xx).
pub const EXIT_UNAVAILABLE: u8 = 69;
/// Unexpected internal failure.
pub const EXIT_INTERNAL: u8 = 70;
/// Transport / network failure or local body budget.
pub const EXIT_NETWORK: u8 = 74;
/// Local filesystem failure; shares its code with network and budget failures.
pub const EXIT_IO: u8 = 74;
/// Local configuration error (XDG TOML, origins).
pub const EXIT_CONFIG: u8 = 78;
/// Wall-clock deadline exceeded.
pub const EXIT_TIMEOUT: u8 = 124;
/// SIGINT / Ctrl-C cooperative cancel.
pub const EXIT_INTERRUPTED: u8 = 130;
/// stdout EPIPE / broken pipe.
pub const EXIT_BROKEN_PIPE: u8 = 141;
/// SIGTERM / SIGHUP terminate.
pub const EXIT_TERMINATED: u8 = 143;

/// Canonical error kinds exposed in JSON envelopes.
#[derive(Debug, Clone, Copy, PartialEq, Eq, Structural)]
#[non_exhaustive]
pub enum ErrorKind {
    /// Clap usage / argv error (exit 64).
    Usage,
    /// Invalid domain input such as crate name or path (exit 65).
    InvalidInput,
    /// Remote resource missing (exit 66).
    NotFound,
    /// HTTP 429 rate limit (exit 69, retryable).
    RateLimited,
    /// Remote 5xx or temporary outage (exit 69, retryable).
    Unavailable,
    /// Wall-clock deadline exceeded (exit 124, retryable).
    Timeout,
    /// Transport / unexpected HTTP failure (exit 74, retryable).
    Network,
    /// Local body/output budget exceeded (exit 74, not retryable).
    Budget,
    /// Body parse failure (exit 65).
    Parse,
    /// Local configuration error (exit 78).
    Config,
    /// Local filesystem failure caused by the environment (exit 74).
    Io,
    /// Unexpected internal failure (exit 70).
    Internal,
    /// SIGINT / Ctrl-C
    Interrupted,
    /// SIGTERM graceful cancel
    Terminated,
    /// stdout write hit a closed pipe (EPIPE / SIGPIPE)
    BrokenPipe,
}

/// Stable snake_case wire name of a kind.
pub open spec fn kind_name(k: ErrorKind) -> Seq<char> {
    match k {
        ErrorKind::Usage => "usage"@,
        ErrorKind::InvalidInput => "invalid_input"@,
        ErrorKind::NotFound => "not_found"@,
        ErrorKind::RateLimited => "rate_limited"@,
        ErrorKind::Unavailable => "unavailable"@,
        ErrorKind::Timeout => "timeout"@,
        ErrorKind::Network => "network"@,
        ErrorKind::Budget => "budget"@,
        ErrorKind::Parse => "parse"@,
        ErrorKind::Config => "config"@,
        ErrorKind::Io => "io"@,
        ErrorKind::Internal => "internal"@,
        ErrorKind::Interrupted => "interrupted"@,
        ErrorKind::Terminated => "terminated"@,
        ErrorKind::BrokenPipe => "broken_pipe"@,
    }
}

/// Process exit code of a kind.
pub open spec fn kind_exit_code(k: ErrorKind) -> u8 {
    match k {
        ErrorKind::Usage => 64,
        ErrorKind::InvalidInput | ErrorKind::Parse => 65,
        ErrorKind::NotFound => 66,
        ErrorKind::RateLimited | ErrorKind::Unavailable => 69,
        ErrorKind::Network | ErrorKind::Budget | ErrorKind::Io => 74,
        ErrorKind::Timeout => 124,
        ErrorKind::Config => 78,
        ErrorKind::Internal => 70,
        ErrorKind::Interrupted => 130,
        ErrorKind::Terminated => 143,
        ErrorKind::BrokenPipe => 141,
    }
}

/// Kinds an agent may retry after backoff, judged by the kind alone.
pub open spec fn kind_retryable(k: ErrorKind) -> bool {
    match k {
        ErrorKind::RateLimited | ErrorKind::Unavailable | ErrorKind::Timeout
        | ErrorKind::Network => true,
        _ => false,
    }
}

/// Detailed retry category of a kind.
pub open spec fn kind_retry_kind(k: ErrorKind) -> RetryKind {
    match k {
        ErrorKind::RateLimited => RetryKind::RateLimited,
        ErrorKind::Unavailable => RetryKind::TransientServer,
        ErrorKind::Timeout => RetryKind::Timeout,
        ErrorKind::Network => RetryKind::TransientNetwork,
        _ => RetryKind::Permanent,
    }
}

impl ErrorKind {
    /// Stable snake_case identifier for JSON `error.kind`.
    pub fn as_str(self) -> (r: &'static str)
        ensures
            r@ == kind_name(self),
    {
        match self {
            Self::Usage => "usage",
            Self::InvalidInput => "invalid_input",
            Self::NotFound => "not_found",
            Self::RateLimited => "rate_limited",
            Self::Unavailable => "unavailable",
            Self::Timeout => "timeout",
            Self::Network => "network",
            Self::Budget => "budget",
            Self::Parse => "parse",
            Self::Config => "config",
            Self::Io => "io",
            Self::Internal => "internal",
            Self::Interrupted => "interrupted",
            Self::Terminated => "terminated",
            Self::BrokenPipe => "broken_pipe",
        }
    }

    /// Process exit code for this kind.
    pub fn exit_code(self) -> (r: u8)
        ensures
            r == kind_exit_code(self),
    {
        match self {
            Self::Usage => EXIT_USAGE,
            Self::InvalidInput => EXIT_INVALID_INPUT,
            Self::NotFound => EXIT_NOT_FOUND,
            Self::RateLimited | Self::Unavailable => EXIT_UNAVAILABLE,
            Self::Network | Self::Budget => EXIT_NETWORK,
            Self::Timeout => EXIT_TIMEOUT,
            Self::Parse => EXIT_INVALID_INPUT,
            Self::Config => EXIT_CONFIG,
            Self::Io => EXIT_IO,
            Self::Internal => EXIT_INTERNAL,
            Self::Interrupted => EXIT_INTERRUPTED,
            Self::Terminated => EXIT_TERMINATED,
            Self::BrokenPipe => EXIT_BROKEN_PIPE,
        }
    }

    /// Whether an agent may retry the same invocation after backoff.
    ///
    /// [`ErrorKind::Io`] answers `false` here and means "ask the detail":
    /// the kind alone cannot tell a full disk from a permission denial.
    pub fn retryable(self) -> (r: bool)
        ensures
            r == kind_retryable(self),
    {
        match self {
            Self::RateLimited | Self::Unavailable | Self::Timeout | Self::Network => true,
            _ => false,
        }
    }

    /// Alias of [`ErrorKind::retryable`].
    pub fn is_retryable(self) -> (r: bool)
        ensures
            r == kind_retryable(self),
    {
        self.retryable()
    }

    /// Permanent for agent auto-retry (complement of [`ErrorKind::is_retryable`]).
    pub fn is_permanent(self) -> (r: bool)
        ensures
            r == !kind_retryable(self),
    {
        !self.retryable()
    }

    /// Detailed retry category.
    pub fn retry_kind(self) -> (r: RetryKind)
        ensures
            r == kind_retry_kind(self),
    {
        match self {
            Self::RateLimited => RetryKind::RateLimited,
            Self::Unavailable => RetryKind::TransientServer,
            Self::Timeout => RetryKind::Timeout,
            Self::Network => RetryKind::TransientNetwork,
            _ => RetryKind::Permanent,
        }
    }
}

} // verus!
