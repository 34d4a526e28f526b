//! Product limits, allowlisted hosts and the runtime knobs the policies read.

use vstd::prelude::*;

use crate::text::{chars_of, eq_str, string_of, trim, trim_chars};

verus! {

/// Longest accepted crate name, in characters.
pub const MAX_CRATE_NAME_CHARS: usize = 64;
/// Longest accepted item path, in characters.
pub const MAX_ITEM_PATH_CHARS: usize = 512;
/// Longest accepted search query, in characters.
pub const MAX_QUERY_CHARS: usize = 256;
/// Longest accepted version token, in characters.
pub const MAX_VERSION_CHARS: usize = 64;

/// Product ceiling on a downloaded response body, in bytes (operators may only lower it).
pub const HARD_MAX_BODY_BYTES: u64 = 67_108_864;
/// Slice length of cancel-aware sleeps, in milliseconds.
pub const CANCEL_POLL_INTERVAL_MS: u64 = 100;

/// Product name as shown in discovery output.
pub const APP_NAME: &'static str = "docsrs-cli";
/// Product version.
pub const APP_VERSION: &'static str = "0.1.0";
/// Minimum supported Rust version.
pub const MSRV: &'static str = "1.88";

/// Version of the JSON envelope schema.
pub const SCHEMA_VERSION: u32 = 1;

/// crates.io API host.
pub const HOST_CRATES_IO: &'static str = "crates.io";
/// docs.rs host.
pub const HOST_DOCS_RS: &'static str = "docs.rs";
/// docs.rs static asset host.
pub const HOST_STATIC_DOCS_RS: &'static str = "static.docs.rs";
/// Standard library documentation host.
pub const HOST_DOC_RUST_LANG_ORG: &'static str = "doc.rust-lang.org";
/// The only scheme accepted for production hosts.
pub const SCHEME_HTTPS: &'static str = "https";

/// One of the four production hosts.
pub open spec fn is_product_host(host: Seq<char>) -> bool {
    host == "crates.io"@ || host == "docs.rs"@ || host == "static.docs.rs"@
        || host == "doc.rust-lang.org"@
}

/// A loopback host name.
pub open spec fn is_loopback_host(host: Seq<char>) -> bool {
    host == "127.0.0.1"@ || host == "localhost"@
}

/// SSRF allowlist on a scheme and host: production hosts over `https`, or loopback
/// over `http`/`https` when loopback is explicitly allowed.
pub open spec fn origin_allowed(scheme: Seq<char>, host: Seq<char>, allow_loopback: bool) -> bool {
    (is_product_host(host) && scheme == "https"@) || (allow_loopback && is_loopback_host(host)
        && (scheme == "http"@ || scheme == "https"@))
}

/// Executable [`origin_allowed`].
pub fn is_allowed_origin_scheme_host(scheme: &str, host: &str, allow_loopback: bool) -> (r: bool)
    ensures
        r == origin_allowed(scheme@, host@, allow_loopback),
{
    let s = chars_of(scheme);
    let h = chars_of(host);
    let product = eq_str(h.as_slice(), "crates.io") || eq_str(h.as_slice(), "docs.rs") || eq_str(
        h.as_slice(),
        "static.docs.rs",
    ) || eq_str(h.as_slice(), "doc.rust-lang.org");
    let https = eq_str(s.as_slice(), "https");
    let http = eq_str(s.as_slice(), "http");
    let loopback = eq_str(h.as_slice(), "127.0.0.1") || eq_str(h.as_slice(), "localhost");
    (product && https) || (allow_loopback && loopback && (http || https))
}

/// Drop trailing `/` characters.
pub open spec fn trim_trailing_slashes(s: Seq<char>) -> Seq<char>
    decreases s.len(),
{
    if s.len() > 0 && s.last() == '/' {
        trim_trailing_slashes(s.drop_last())
    } else {
        s
    }
}

/// Origin text before URL parsing: surrounding whitespace and trailing slashes dropped.
pub open spec fn normalized_origin(raw: Seq<char>) -> Seq<char> {
    trim_trailing_slashes(trim(raw))
}

/// Executable [`normalized_origin`].
pub fn normalize_origin(raw: &str) -> (r: String)
    ensures
        r@ == normalized_origin(raw@),
{
    let v = chars_of(raw);
    let t = trim_chars(v.as_slice());
    let mut j: usize = t.len();
    proof {
        assert(t@.take(j as int) == t@);
    }
    while j > 0 && t[j - 1] == '/'
        invariant
            0 <= j <= t@.len(),
            trim_trailing_slashes(t@) == trim_trailing_slashes(t@.take(j as int)),
        decreases j,
    {
        proof {
            assert(t@.take(j as int).drop_last() == t@.take(j - 1));
        }
        j = j - 1;
    }
    let mut out: Vec<char> = Vec::new();
    let mut k: usize = 0;
    while k < j
        invariant
            0 <= k <= j <= t@.len(),
            out@ == t@.take(k as int),
        decreases j - k,
    {
        out.push(t[k]);
        k = k + 1;
        proof {
            assert(out@ == t@.take(k as int));
        }
    }
    proof {
        assert(t@.take(t@.len() as int) == t@);
    }
    string_of(out.as_slice())
}

/// Rustdoc channel of a version token for stdlib paths (`latest` → `stable`).
pub open spec fn channel_of(version: Seq<char>) -> Seq<char> {
    if version == "latest"@ {
        "stable"@
    } else {
        version
    }
}

/// Runtime knobs read by the retry and output-budget policies.
#[derive(Debug, Clone, Copy, PartialEq, Eq)]
pub struct Config {
    /// Retries after the first attempt.
    pub max_retries: u32,
    /// Exponential base delay in milliseconds (`0` = product default).
    pub retry_base_ms: u64,
    /// Maximum single retry sleep in milliseconds.
    pub retry_max_delay_ms: u64,
    /// Total retry budget in milliseconds (`0` = derive from the wall timeout).
    pub retry_max_elapsed_ms: u64,
    /// Wall-clock timeout in seconds.
    pub timeout_secs: u64,
    /// Kill switch for retries.
    pub disable_retry: bool,
    /// Budget for emitted output, in bytes.
    pub max_output_bytes: u64,
    /// Per-host politeness floor in milliseconds.
    pub rate_limit_delay_ms: u64,
}

impl Default for Config {
    fn default() -> (r: Self)
        ensures
            r.max_retries == 3,
            r.retry_base_ms == 200,
            r.retry_max_delay_ms == 30_000,
            r.retry_max_elapsed_ms == 0,
            r.timeout_secs == 30,
            !r.disable_retry,
            r.max_output_bytes == 1_048_576,
            r.rate_limit_delay_ms == 1_000,
    {
        Config {
            max_retries: 3,
            retry_base_ms: 200,
            retry_max_delay_ms: 30_000,
            retry_max_elapsed_ms: 0,
            timeout_secs: 30,
            disable_retry: false,
            max_output_bytes: 1_048_576,
            rate_limit_delay_ms: 1_000,
        }
    }
}

} // verus!
