//! Allowlisted HTTP(S) origin: the SSRF allowlist, with its proof carried in the type.

use vstd::prelude::*;

use crate::config::{
    is_allowed_origin_scheme_host, normalize_origin, normalized_origin, origin_allowed,
    HOST_CRATES_IO, HOST_DOCS_RS, HOST_DOC_RUST_LANG_ORG, HOST_STATIC_DOCS_RS, SCHEME_HTTPS,
};
use crate::error::app_error::AppError;
use crate::error::detail::ErrorDetail;
use crate::error::vocab::{InternalOp, Subject};
use crate::text::{dec, eq_str, chars_of, push_dec, push_str};

verus! {

#[verifier::external_type_specification]
#[verifier::external_body]
pub struct ExUrl(url::Url);

/// What `url::Url::parse` makes of a text: the parsed URL's scheme, host
/// (`host_str`) and explicit port, or the text of the parse error.
pub uninterp spec fn url_parse_parts(raw: Seq<char>) -> Result<
    (Seq<char>, Option<Seq<char>>, Option<u16>),
    Seq<char>,
>;

/// View of an optional string.
pub open spec fn opt_view(o: Option<String>) -> Option<Seq<char>> {
    match o {
        Some(s) => Some(s@),
        None => None,
    }
}

/// `url::Url::parse` on `raw`, returning the URL with its scheme, `host_str`
/// and `port`, or the `Display` text of the error.
///
/// The contract only claims that this outcome is the one [`url_parse_parts`]
/// names for `raw`; nothing is claimed about the opaque URL value.
#[verifier::external_body]
fn parse_url(raw: &str) -> (r: Result<(url::Url, String, Option<String>, Option<u16>), String>)
    ensures
        match (r, url_parse_parts(raw@)) {
            (Ok((_, s, h, p)), Ok((s2, h2, p2))) => s@ == s2 && opt_view(h) == h2 && p == p2,
            (Err(m), Err(m2)) => m@ == m2,
            _ => false,
        },
{
    match url::Url::parse(raw) {
        Ok(u) => {
            let scheme = u.scheme().to_string();
            let host = u.host_str().map(|h| h.to_string());
            let port = u.port();
            Ok((u, scheme, host, port))
        },
        Err(e) => Err(e.to_string()),
    }
}

/// Stored text of an origin: `scheme://host`, plus `:port` when explicit.
pub open spec fn origin_text(scheme: Seq<char>, host: Seq<char>, port: Option<u16>) -> Seq<char> {
    scheme + "://"@ + host + match port {
        Some(p) => ":"@ + dec(p as nat),
        None => Seq::empty(),
    }
}

/// The allowlist named in a rejection.
pub open spec fn allowlist_text() -> Seq<char> {
    HOST_CRATES_IO@ + ", "@ + HOST_DOCS_RS@ + ", "@ + HOST_STATIC_DOCS_RS@ + ", "@
        + HOST_DOC_RUST_LANG_ORG@
}

/// `e` rejects `value` as an unparseable origin, keeping the parser's message.
pub open spec fn origin_invalid_error(e: AppError, value: Seq<char>, cause: Seq<char>) -> bool {
    &&& e.wf()
    &&& e.source_of() == Some(cause)
    &&& match e.detail_of() {
        ErrorDetail::Invalid { subject, value: v } => subject == Subject::Origin && v@ == value,
        _ => false,
    }
}

/// `e` rejects an origin whose scheme is not `http`/`https`.
pub open spec fn origin_scheme_error(e: AppError, scheme: Seq<char>) -> bool {
    &&& e.wf()
    &&& match e.detail_of() {
        ErrorDetail::OriginBadScheme { scheme: s } => s@ == scheme,
        _ => false,
    }
}

/// `e` rejects an origin without a host.
pub open spec fn origin_host_missing_error(e: AppError, url: Seq<char>) -> bool {
    &&& e.wf()
    &&& match e.detail_of() {
        ErrorDetail::OriginMissingHost { url: u } => u@ == url,
        _ => false,
    }
}

/// `e` rejects a host outside the allowlist.
pub open spec fn origin_host_error(e: AppError, host: Seq<char>) -> bool {
    &&& e.wf()
    &&& match e.detail_of() {
        ErrorDetail::OriginNotAllowlisted { host: h, allowed } => h@ == host && allowed@
            == allowlist_text(),
        _ => false,
    }
}

/// `r` is what the origin allowlist answers for the normalized text `normalized`
/// given the parser's outcome `parsed`.
pub open spec fn origin_agrees(
    r: Result<AllowedOrigin, AppError>,
    normalized: Seq<char>,
    parsed: Result<(Seq<char>, Option<Seq<char>>, Option<u16>), Seq<char>>,
    allow_loopback: bool,
) -> bool {
    match parsed {
        Err(m) => r matches Err(e) && origin_invalid_error(e, normalized, m),
        Ok((scheme, host, port)) => if !(scheme == "http"@ || scheme == "https"@) {
            r matches Err(e) && origin_scheme_error(e, scheme)
        } else {
            match host {
                None => r matches Err(e) && origin_host_missing_error(e, normalized),
                Some(h) => if !origin_allowed(scheme, h, allow_loopback) {
                    r matches Err(e) && origin_host_error(e, h)
                } else {
                    r matches Ok(o) && o@ == origin_text(scheme, h, port) && o.wf()
                },
            }
        },
    }
}

/// HTTPS (or explicitly allowed loopback) origin that passed the product SSRF allowlist.
#[derive(Debug, PartialEq, Eq, Hash)]
pub struct AllowedOrigin(String);

impl View for AllowedOrigin {
    type V = Seq<char>;

    closed spec fn view(&self) -> Seq<char> {
        self.0@
    }
}

impl Clone for AllowedOrigin {
    fn clone(&self) -> (r: Self)
        ensures
            r@ == self@,
    {
        AllowedOrigin(self.0.clone())
    }
}

fn origin_string(scheme: &str, host: &str, port: Option<u16>) -> (r: String)
    ensures
        r@ == origin_text(scheme@, host@, port),
{
    let mut s = String::new();
    push_str(&mut s, scheme);
    push_str(&mut s, "://");
    push_str(&mut s, host);
    match port {
        Some(p) => {
            push_str(&mut s, ":");
            push_dec(&mut s, p as u64);
        },
        None => {},
    }
    s
}

impl AllowedOrigin {
    /// The stored text is `scheme://host[:port]` for a scheme and host that
    /// pass the allowlist (loopback included).
    pub open spec fn wf(&self) -> bool {
        exists|scheme: Seq<char>, host: Seq<char>, port: Option<u16>|
            #[trigger] origin_text(scheme, host, port) == self@ && origin_allowed(scheme, host, true)
    }

    /// Parse and normalize an HTTP(S) origin with the production allowlist
    /// (no loopback).
    pub fn parse(raw: &str) -> (r: Result<Self, AppError>)
        ensures
            ({
                let n = normalized_origin(raw@);
                if n.len() == 0 {
                    r matches Err(e) && e.wf() && e.detail_of() == (ErrorDetail::Empty {
                        subject: Subject::Origin,
                    })
                } else {
                    origin_agrees(r, n, url_parse_parts(n), false)
                }
            }),
    {
        Self::parse_with(raw, false)
    }

    /// Parse and normalize an HTTP(S) origin (scheme + host, path dropped).
    ///
    /// Hosts must pass the product SSRF allowlist; with `allow_loopback`,
    /// `127.0.0.1` / `localhost` over `http` or `https` are accepted too.
    pub fn parse_with(raw: &str, allow_loopback: bool) -> (r: Result<Self, AppError>)
        ensures
            ({
                let n = normalized_origin(raw@);
                if n.len() == 0 {
                    r matches Err(e) && e.wf() && e.detail_of() == (ErrorDetail::Empty {
                        subject: Subject::Origin,
                    })
                } else {
                    origin_agrees(r, n, url_parse_parts(n), allow_loopback)
                }
            }),
    {
        let normalized = normalize_origin(raw);
        if normalized.as_str().unicode_len() == 0 {
            return Err(AppError::of(ErrorDetail::Empty { subject: Subject::Origin }));
        }
        match parse_url(normalized.as_str()) {
            Ok((_url, scheme, host, port)) => Self::from_parsed(
                normalized.as_str(),
                Ok((scheme, host, port)),
                allow_loopback,
            ),
            Err(m) => Self::from_parsed(normalized.as_str(), Err(m), allow_loopback),
        }
    }

    /// The allowlist applied to the URL parser's outcome for the normalized text:
    /// `http`/`https` only, a host required, the host allowlisted; path,
    /// query and fragment dropped.
    pub fn from_parsed(
        normalized: &str,
        parsed: Result<(String, Option<String>, Option<u16>), String>,
        allow_loopback: bool,
    ) -> (r: Result<Self, AppError>)
        ensures
            origin_agrees(
                r,
                normalized@,
                match parsed {
                    Ok((s, h, p)) => Ok((s@, opt_view(h), p)),
                    Err(m) => Err(m@),
                },
                allow_loopback,
            ),
    {
        match parsed {
            Err(m) => Err(
                AppError::of_with_source(
                    ErrorDetail::Invalid { subject: Subject::Origin, value: normalized.to_owned() },
                    m.as_str(),
                ),
            ),
            Ok((scheme, host, port)) => {
                let sc = chars_of(scheme.as_str());
                if !(eq_str(sc.as_slice(), "http") || eq_str(sc.as_slice(), "https")) {
                    return Err(AppError::of(ErrorDetail::OriginBadScheme { scheme }));
                }
                match host {
                    None => Err(
                        AppError::of(ErrorDetail::OriginMissingHost { url: normalized.to_owned() }),
                    ),
                    Some(h) => {
                        if !is_allowed_origin_scheme_host(scheme.as_str(), h.as_str(), allow_loopback) {
                            let mut allowed = String::new();
                            push_str(&mut allowed, HOST_CRATES_IO);
                            push_str(&mut allowed, ", ");
                            push_str(&mut allowed, HOST_DOCS_RS);
                            push_str(&mut allowed, ", ");
                            push_str(&mut allowed, HOST_STATIC_DOCS_RS);
                            push_str(&mut allowed, ", ");
                            push_str(&mut allowed, HOST_DOC_RUST_LANG_ORG);
                            return Err(
                                AppError::of(ErrorDetail::OriginNotAllowlisted { host: h, allowed }),
                            );
                        }
                        let text = origin_string(scheme.as_str(), h.as_str(), port);
                        let o = AllowedOrigin(text);
                        proof {
                            assert(origin_text(scheme@, h@, port) == o@);
                        }
                        Ok(o)
                    },
                }
            },
        }
    }

    /// Default crates.io API origin (valid by construction).
    pub fn crates_io_default() -> (r: Self)
        ensures
            r@ == origin_text("https"@, "crates.io"@, None),
            r.wf(),
    {
        let o = AllowedOrigin(origin_string(SCHEME_HTTPS, HOST_CRATES_IO, None));
        proof {
            assert(origin_text("https"@, "crates.io"@, None) == o@);
        }
        o
    }

    /// Default docs.rs origin (valid by construction).
    pub fn docs_rs_default() -> (r: Self)
        ensures
            r@ == origin_text("https"@, "docs.rs"@, None),
            r.wf(),
    {
        let o = AllowedOrigin(origin_string(SCHEME_HTTPS, HOST_DOCS_RS, None));
        proof {
            assert(origin_text("https"@, "docs.rs"@, None) == o@);
        }
        o
    }

    /// Default stdlib docs origin on doc.rust-lang.org (valid by construction).
    pub fn stdlib_docs_default() -> (r: Self)
        ensures
            r@ == origin_text("https"@, "doc.rust-lang.org"@, None),
            r.wf(),
    {
        let o = AllowedOrigin(origin_string(SCHEME_HTTPS, HOST_DOC_RUST_LANG_ORG, None));
        proof {
            assert(origin_text("https"@, "doc.rust-lang.org"@, None) == o@);
        }
        o
    }

    /// Borrow the origin string (no trailing slash).
    pub fn as_str(&self) -> (r: &str)
        ensures
            r@ == self@,
    {
        self.0.as_str()
    }

    /// The origin text (its display form).
    pub fn to_string(&self) -> (r: String)
        ensures
            r@ == self@,
    {
        self.0.clone()
    }

    /// Re-parse this validated origin into a WHATWG URL; a failure is an
    /// internal invariant break.
    pub fn to_url(&self) -> (r: Result<url::Url, AppError>)
        ensures
            r is Ok <==> url_parse_parts(self@) is Ok,
            url_parse_parts(self@) matches Err(m) ==> r matches Err(e) && e.wf() && e.detail_of()
                == (ErrorDetail::Internal { op: InternalOp::AllowedOriginUnparseable })
                && e.source_of() == Some(m),
    {
        match parse_url(self.0.as_str()) {
            Ok((u, _, _, _)) => Ok(u),
            Err(m) => Err(
                AppError::of_with_source(
                    ErrorDetail::Internal { op: InternalOp::AllowedOriginUnparseable },
                    m.as_str(),
                ),
            ),
        }
    }
}

} // verus!
