//! HTTP policy: host allowlist checks, content-type checks, body budget and
//! UTF-8 decoding, the retry decision for each attempt, and the per-host
//! politeness throttle arithmetic. The sockets themselves live in the
//! application crate.

pub mod attempt;
pub mod body;
pub mod constants;
pub mod content_type;
pub mod rate_limit;

pub use attempt::{decide_attempt, AttemptAction, AttemptOutcome};
pub use body::decode_utf8;
pub use constants::{
    POOL_IDLE_TIMEOUT_SECS, POOL_MAX_IDLE_PER_HOST, TCP_KEEPALIVE_IDLE_SECS,
    TCP_KEEPALIVE_INTERVAL_SECS, TCP_KEEPALIVE_RETRIES,
};
pub use content_type::{
    ascii_contains_ignore_case, client_posture_detail, content_type_looks_html,
    content_type_looks_json, require_content_type_html, require_content_type_json,
};
pub use rate_limit::RATE_LIMIT_DIR_NAME;
