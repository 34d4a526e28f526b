//! Content-Type sniffing, fail-closed require helpers and the client posture line.

use vstd::prelude::*;

use super::constants::{
    POOL_IDLE_TIMEOUT_SECS, POOL_MAX_IDLE_PER_HOST, RUSTLS_VERSION_FLOOR, TCP_KEEPALIVE_IDLE_SECS,
    TCP_KEEPALIVE_INTERVAL_SECS, TCP_KEEPALIVE_RETRIES, TLS_CRYPTO_PROVIDER, TLS_PROVIDER_POSTURE,
    TLS_TRUST_ANCHORS,
};
use crate::error::app_error::AppError;
use crate::error::detail::ErrorDetail;
use crate::error::vocab::ContentKind;
use crate::text::{chars_of, contains, contains_exec, dec, lower_chars, lower_seq, push_dec, push_str};

verus! {

/// `needle` occurs in `haystack`, ASCII case-insensitively.
pub open spec fn contains_ignore_case(haystack: Seq<char>, needle: Seq<char>) -> bool {
    contains(lower_seq(haystack), lower_seq(needle))
}

/// A present Content-Type that mentions JSON.
pub open spec fn looks_json(ct: Option<Seq<char>>) -> bool {
    ct matches Some(c) && contains_ignore_case(c, "json"@)
}

/// A present Content-Type that mentions HTML or XHTML.
pub open spec fn looks_html(ct: Option<Seq<char>>) -> bool {
    ct matches Some(c) && (contains_ignore_case(c, "html"@) || contains_ignore_case(c, "xhtml"@))
}

/// `e` rejects the Content-Type `got` where `expected` was required.
pub open spec fn content_type_error(e: AppError, expected: ContentKind, got: Seq<char>) -> bool {
    &&& e.wf()
    &&& match e.detail_of() {
        ErrorDetail::UnexpectedContentType { expected: x, got: g } => x == expected && g@ == got,
        _ => false,
    }
}

/// ASCII case-insensitive substring check (an empty needle always matches).
pub fn ascii_contains_ignore_case(haystack: &str, needle: &str) -> (r: bool)
    ensures
        r == contains_ignore_case(haystack@, needle@),
{
    let h = chars_of(haystack);
    let n = chars_of(needle);
    let hl = lower_chars(h.as_slice());
    let nl = lower_chars(n.as_slice());
    contains_exec(hl.as_slice(), nl.as_slice())
}

/// True when Content-Type looks like JSON.
pub fn content_type_looks_json(ct: Option<&str>) -> (r: bool)
    ensures
        r == looks_json(crate::text::opt_str(ct)),
{
    match ct {
        Some(c) => ascii_contains_ignore_case(c, "json"),
        None => false,
    }
}

/// True when Content-Type looks like HTML/XHTML.
pub fn content_type_looks_html(ct: Option<&str>) -> (r: bool)
    ensures
        r == looks_html(crate::text::opt_str(ct)),
{
    match ct {
        Some(c) => ascii_contains_ignore_case(c, "html") || ascii_contains_ignore_case(c, "xhtml"),
        None => false,
    }
}

/// Fail closed when a Content-Type is present but not JSON; a missing one is
/// allowed (the body parse still validates structure).
pub fn require_content_type_json(ct: Option<&str>) -> (r: Result<(), AppError>)
    ensures
        match ct {
            None => r is Ok,
            Some(c) => if looks_json(Some(c@)) {
                r is Ok
            } else {
                r matches Err(e) && content_type_error(e, ContentKind::Json, c@)
            },
        },
{
    match ct {
        None => Ok(()),
        Some(c) => {
            if content_type_looks_json(Some(c)) {
                Ok(())
            } else {
                Err(
                    AppError::of(
                        ErrorDetail::UnexpectedContentType {
                            expected: ContentKind::Json,
                            got: c.to_owned(),
                        },
                    ),
                )
            }
        },
    }
}

/// Fail closed when a Content-Type is present but not HTML/XHTML.
pub fn require_content_type_html(ct: Option<&str>) -> (r: Result<(), AppError>)
    ensures
        match ct {
            None => r is Ok,
            Some(c) => if looks_html(Some(c@)) {
                r is Ok
            } else {
                r matches Err(e) && content_type_error(e, ContentKind::Html, c@)
            },
        },
{
    match ct {
        None => Ok(()),
        Some(c) => {
            if content_type_looks_html(Some(c)) {
                Ok(())
            } else {
                Err(
                    AppError::of(
                        ErrorDetail::UnexpectedContentType {
                            expected: ContentKind::Html,
                            got: c.to_owned(),
                        },
                    ),
                )
            }
        },
    }
}

/// Machine-readable summary of the compiled HTTP client posture.
pub open spec fn posture_text() -> Seq<char> {
    "rustls≥"@ + RUSTLS_VERSION_FLOOR@ + " provider="@ + TLS_CRYPTO_PROVIDER@ + " posture="@
        + TLS_PROVIDER_POSTURE@ + " TLS≥1.2 "@ + TLS_TRUST_ANCHORS@
        + " http2 system-proxy tcp_nodelay keepalive="@ + dec(TCP_KEEPALIVE_IDLE_SECS as nat) + "s/"@
        + dec(TCP_KEEPALIVE_INTERVAL_SECS as nat) + "s/r"@ + dec(TCP_KEEPALIVE_RETRIES as nat)
        + " pool_idle="@ + dec(POOL_MAX_IDLE_PER_HOST as nat) + "@"@ + dec(
        POOL_IDLE_TIMEOUT_SECS as nat,
    ) + "s host-allowlist no-danger-tls"@
}

/// Machine-readable summary of the compiled HTTP client posture (doctor / docs).
pub fn client_posture_detail() -> (r: String)
    ensures
        r@ == posture_text(),
{
    let mut s = String::new();
    push_str(&mut s, "rustls≥");
    push_str(&mut s, RUSTLS_VERSION_FLOOR);
    push_str(&mut s, " provider=");
    push_str(&mut s, TLS_CRYPTO_PROVIDER);
    push_str(&mut s, " posture=");
    push_str(&mut s, TLS_PROVIDER_POSTURE);
    push_str(&mut s, " TLS≥1.2 ");
    push_str(&mut s, TLS_TRUST_ANCHORS);
    push_str(&mut s, " http2 system-proxy tcp_nodelay keepalive=");
    push_dec(&mut s, TCP_KEEPALIVE_IDLE_SECS);
    push_str(&mut s, "s/");
    push_dec(&mut s, TCP_KEEPALIVE_INTERVAL_SECS);
    push_str(&mut s, "s/r");
    push_dec(&mut s, TCP_KEEPALIVE_RETRIES as u64);
    push_str(&mut s, " pool_idle=");
    push_dec(&mut s, POOL_MAX_IDLE_PER_HOST as u64);
    push_str(&mut s, "@");
    push_dec(&mut s, POOL_IDLE_TIMEOUT_SECS);
    push_str(&mut s, "s host-allowlist no-danger-tls");
    s
}

} // verus!
