//! Validated crate version token.

use vstd::prelude::*;

use super::crate_name::invalid_input_error;
use super::regex::{bounded_regex_compiles, compile_bounded_regex, pattern_matches};
use crate::config::{channel_of, MAX_VERSION_CHARS};
use crate::error::app_error::AppError;
use crate::error::kind::ErrorKind;
use crate::text::{
    chars_of, contains, dec, eq_str, lemma_trim_idempotent, push_chars, push_dec, push_str,
    str_contains, string_of, trim, trim_chars,
};

verus! {

/// The SemVer-ish shape accepted for versions (no build metadata, no `v`).
pub const SEMVER_PATTERN: &'static str = "^\\d+\\.\\d+\\.\\d+(-[0-9A-Za-z.-]+)?$";

/// Whether the SemVer check accepts `t`: the pattern builds under the regex
/// budgets and matches `t`.
pub open spec fn semver_accepts(t: Seq<char>) -> bool {
    bounded_regex_compiles(SEMVER_PATTERN@) && pattern_matches(SEMVER_PATTERN@, t)
}

/// `latest` or a rustdoc channel name.
pub open spec fn is_channel(t: Seq<char>) -> bool {
    t == "latest"@ || t == "stable"@ || t == "beta"@ || t == "nightly"@
}

/// Outcome of validating the trimmed token `t`, given whether it matches the
/// SemVer pattern: the accepted token, or the message of the rejection.
pub open spec fn version_outcome(t: Seq<char>, semver: bool) -> Result<Seq<char>, Seq<char>> {
    if t.len() > MAX_VERSION_CHARS {
        Err("version exceeds "@ + dec(MAX_VERSION_CHARS as nat) + " characters"@)
    } else if is_channel(t) {
        Ok(t)
    } else if t.len() > 0 && (t[0] == 'v' || t[0] == 'V') {
        Err("version must not start with 'v' prefix"@)
    } else if contains(t, "+"@) {
        Err("version build metadata is not accepted"@)
    } else if !semver {
        Err("invalid version '"@ + t + "'"@)
    } else {
        Ok(t)
    }
}

/// `r` is the result that the outcome `out` describes.
pub open spec fn agrees(r: Result<VersionArg, AppError>, out: Result<Seq<char>, Seq<char>>) -> bool {
    match out {
        Ok(s) => r matches Ok(x) && x@ == s,
        Err(m) => r matches Err(e) && invalid_input_error(e, m),
    }
}

/// Validated crate version token (`latest`, channel, or SemVer without `v` prefix).
#[derive(Debug, PartialEq, Eq, Hash)]
pub struct VersionArg(String);

impl View for VersionArg {
    type V = Seq<char>;

    closed spec fn view(&self) -> Seq<char> {
        self.0@
    }
}

impl Clone for VersionArg {
    fn clone(&self) -> (r: Self)
        ensures
            r@ == self@,
    {
        VersionArg(self.0.clone())
    }
}

/// Decide a trimmed token given the SemVer pattern's answer.
fn decide_version(t: &[char], semver: bool) -> (r: Result<VersionArg, AppError>)
    ensures
        agrees(r, version_outcome(t@, semver)),
{
    if t.len() > MAX_VERSION_CHARS {
        let mut m = String::new();
        push_str(&mut m, "version exceeds ");
        push_dec(&mut m, MAX_VERSION_CHARS as u64);
        push_str(&mut m, " characters");
        return Err(AppError::new(ErrorKind::InvalidInput, m.as_str()));
    }
    if eq_str(t, "latest") || eq_str(t, "stable") || eq_str(t, "beta") || eq_str(t, "nightly") {
        return Ok(VersionArg(string_of(t)));
    }
    if t.len() > 0 && (t[0] == 'v' || t[0] == 'V') {
        return Err(AppError::new(ErrorKind::InvalidInput, "version must not start with 'v' prefix"));
    }
    if str_contains(t, "+") {
        return Err(AppError::new(ErrorKind::InvalidInput, "version build metadata is not accepted"));
    }
    if !semver {
        let mut m = String::new();
        push_str(&mut m, "invalid version '");
        push_chars(&mut m, t);
        push_str(&mut m, "'");
        return Err(AppError::new(ErrorKind::InvalidInput, m.as_str()));
    }
    Ok(VersionArg(string_of(t)))
}

impl VersionArg {
    /// Parse an optional CLI version; absent or blank means `latest`.
    pub fn parse_opt(raw: Option<&str>) -> (r: Result<Self, AppError>)
        ensures
            match raw {
                Some(s) if trim(s@).len() > 0 => {
                    let t = trim(s@);
                    agrees(r, version_outcome(t, semver_accepts(t)))
                },
                _ => r matches Ok(x) && x@ == "latest"@,
            },
    {
        match raw {
            Some(s) => {
                let v = chars_of(s);
                let t = trim_chars(v.as_slice());
                if t.len() > 0 {
                    let ts = string_of(t.as_slice());
                    proof {
                        lemma_trim_idempotent(s@);
                    }
                    return Self::parse(ts.as_str());
                }
            },
            None => {},
        }
        let r = Self::parse("latest");
        proof {
            reveal_strlit("latest");
            assert(trim("latest"@) == "latest"@) by {
                reveal_strlit("latest");
            }
        }
        r
    }

    /// Parses a non-optional version token.
    ///
    /// The SemVer shape is decided by the regex crate; were the pattern not
    /// to build, every token but a channel name would be rejected as malformed.
    pub fn parse(v: &str) -> (r: Result<Self, AppError>)
        ensures
            agrees(r, version_outcome(trim(v@), semver_accepts(trim(v@)))),
    {
        let c = chars_of(v);
        let t = trim_chars(c.as_slice());
        let ts = string_of(t.as_slice());
        let semver = match compile_bounded_regex(SEMVER_PATTERN) {
            Ok(re) => re.is_match(ts.as_str()),
            Err(_) => false,
        };
        decide_version(t.as_slice(), semver)
    }

    /// Borrow the version token.
    pub fn as_str(&self) -> (r: &str)
        ensures
            r@ == self@,
    {
        self.0.as_str()
    }

    /// Map to the rustdoc channel for stdlib paths (`latest` → `stable`).
    pub fn stdlib_channel(&self) -> (r: &str)
        ensures
            r@ == channel_of(self@),
    {
        let v = chars_of(self.0.as_str());
        if eq_str(v.as_slice(), "latest") {
            "stable"
        } else {
            self.0.as_str()
        }
    }
}

/// An accepted version token is already trimmed and parses back to itself.
pub proof fn lemma_version_reparses(v: Seq<char>)
    ensures
        version_outcome(trim(v), semver_accepts(trim(v))) matches Ok(x) ==> trim(x) == x
            && version_outcome(trim(x), semver_accepts(trim(x))) == Ok::<Seq<char>, Seq<char>>(x),
{
    lemma_trim_idempotent(v);
}

/// A trimmed token is accepted exactly when it fits the length limit and is a
/// channel name, or is free of a `v` prefix and of build metadata and passes
/// the SemVer check; an accepted token is echoed unchanged.
pub proof fn lemma_version_acceptance(t: Seq<char>, semver: bool)
    ensures
        version_outcome(t, semver) is Ok <==> t.len() <= MAX_VERSION_CHARS && (is_channel(t) || (
        !(t.len() > 0 && (t[0] == 'v' || t[0] == 'V')) && !contains(t, "+"@) && semver)),
        version_outcome(t, semver) matches Ok(x) ==> x == t,
{
}

} // verus!
