//! Crate reference with optional `name@version` sugar.

use vstd::prelude::*;

use super::crate_name::{crate_name_error, invalid_input_error, valid_crate_name, CrateName};
use super::version::{semver_accepts, version_outcome, VersionArg};
use crate::error::app_error::AppError;
use crate::error::kind::ErrorKind;
use crate::text::{chars_of, lemma_trim_idempotent, push_str, string_of, trim, trim_chars};

verus! {

/// `s` contains an `@`.
pub open spec fn has_at(s: Seq<char>) -> bool {
    exists|i: int| 0 <= i < s.len() && s[i] == '@'
}

/// Text before the first `@` (all of `s` when there is none).
pub open spec fn before_at(s: Seq<char>) -> Seq<char>
    decreases s.len(),
{
    if s.len() == 0 || s[0] == '@' {
        Seq::empty()
    } else {
        seq![s[0]] + before_at(s.drop_first())
    }
}

/// Text after the first `@`.
pub open spec fn after_at(s: Seq<char>) -> Seq<char> {
    s.skip(before_at(s).len() as int + 1)
}

/// Outcome of parsing the trimmed reference `t`, given the SemVer pattern's
/// answer for the trimmed version part: the name and optional version token,
/// or the message of the rejection.
pub open spec fn crate_ref_outcome(t: Seq<char>, semver: bool) -> Result<
    (Seq<char>, Option<Seq<char>>),
    Seq<char>,
> {
    if t.len() == 0 {
        Err("crate name is empty"@)
    } else if has_at(t) {
        let n = before_at(t);
        let v = after_at(t);
        if n.len() == 0 {
            Err("crate name is empty before '@'"@)
        } else if v.len() == 0 {
            Err("version is empty after '@'"@)
        } else if has_at(v) {
            Err("crate reference must contain at most one '@'"@)
        } else if !valid_crate_name(trim(n)) {
            Err(crate_name_error(trim(n)))
        } else {
            match version_outcome(trim(v), semver) {
                Ok(x) => Ok((trim(n), Some(x))),
                Err(m) => Err(m),
            }
        }
    } else if !valid_crate_name(t) {
        Err(crate_name_error(t))
    } else {
        Ok((t, None))
    }
}

/// Answer of the SemVer pattern for the version part of `t`.
pub open spec fn ref_semver(t: Seq<char>) -> bool {
    semver_accepts(trim(after_at(t)))
}

/// `r` is the result that the outcome `out` describes.
pub open spec fn ref_agrees(
    r: Result<CrateRef, AppError>,
    out: Result<(Seq<char>, Option<Seq<char>>), Seq<char>>,
) -> bool {
    match out {
        Ok((n, v)) => r matches Ok(c) && c.name@ == n && c.name.wf() && match v {
            Some(x) => c.version matches Some(y) && y@ == x,
            None => c.version is None,
        },
        Err(m) => r matches Err(e) && invalid_input_error(e, m),
    }
}

/// Version token merged from `@version` sugar and an explicit (trimmed,
/// non-blank) flag, given the SemVer pattern's answer for the flag: both
/// present must agree; otherwise the present one wins; neither means `latest`.
pub open spec fn merge_outcome(at: Option<Seq<char>>, flag: Option<Seq<char>>, semver: bool) -> Result<
    Seq<char>,
    Seq<char>,
> {
    match (at, flag) {
        (Some(a), Some(f)) => match version_outcome(f, semver) {
            Err(m) => Err(m),
            Ok(fv) => if a != fv {
                Err("conflicting versions: crate@"@ + a + " vs --crate-version "@ + fv)
            } else {
                Ok(a)
            },
        },
        (Some(a), None) => Ok(a),
        (None, Some(f)) => version_outcome(f, semver),
        (None, None) => Ok("latest"@),
    }
}

/// The flag after trimming, when it is not blank.
pub open spec fn trimmed_flag(flag: Option<&str>) -> Option<Seq<char>> {
    match flag {
        Some(s) => if trim(s@).len() > 0 {
            Some(trim(s@))
        } else {
            None
        },
        None => None,
    }
}

/// Answer of the SemVer check for the trimmed, non-blank flag (`false` when
/// there is none).
pub open spec fn flag_semver(flag: Option<&str>) -> bool {
    match trimmed_flag(flag) {
        Some(x) => semver_accepts(x),
        None => false,
    }
}

/// `r` is the result that the merge outcome `out` describes for `name`.
pub open spec fn merge_agrees(
    r: Result<(CrateName, VersionArg), AppError>,
    name: Seq<char>,
    out: Result<Seq<char>, Seq<char>>,
) -> bool {
    match out {
        Ok(v) => r matches Ok((n, x)) && n@ == name && x@ == v,
        Err(m) => r matches Err(e) && invalid_input_error(e, m),
    }
}

/// Crate reference with optional `name@version` sugar.
#[derive(Debug, PartialEq, Eq)]
pub struct CrateRef {
    /// Validated crate name.
    pub name: CrateName,
    /// Version from `@…` when present.
    pub version: Option<VersionArg>,
}

impl Clone for CrateRef {
    fn clone(&self) -> (r: Self)
        ensures
            r.name@ == self.name@,
            match (r.version, self.version) {
                (Some(a), Some(b)) => a@ == b@,
                (None, None) => true,
                _ => false,
            },
    {
        CrateRef {
            name: self.name.clone(),
            version: match &self.version {
                Some(v) => Some(v.clone()),
                None => None,
            },
        }
    }
}

fn first_at(v: &[char]) -> (r: usize)
    ensures
        r <= v@.len(),
        r == before_at(v@).len(),
        forall|k: int| 0 <= k < r ==> v@[k] != '@',
        r < v@.len() ==> v@[r as int] == '@',
        before_at(v@) == v@.take(r as int),
{
    let mut i: usize = 0;
    proof {
        assert(v@.skip(0) == v@);
        assert(v@.take(0) + before_at(v@) == before_at(v@));
    }
    while i < v.len() && v[i] != '@'
        invariant
            0 <= i <= v@.len(),
            forall|k: int| 0 <= k < i ==> v@[k] != '@',
            before_at(v@) == v@.take(i as int) + before_at(v@.skip(i as int)),
        decreases v@.len() - i,
    {
        proof {
            let t = v@.skip(i as int);
            assert(t.drop_first() == v@.skip(i + 1));
            assert(v@.take(i + 1) == v@.take(i as int) + seq![t[0]]);
        }
        i = i + 1;
    }
    proof {
        assert(before_at(v@.skip(i as int)) == Seq::<char>::empty());
        assert(v@.take(i as int) + Seq::<char>::empty() == v@.take(i as int));
    }
    i
}

fn copy_range(v: &[char], from: usize, to: usize) -> (r: Vec<char>)
    requires
        from <= to <= v@.len(),
    ensures
        r@ == v@.subrange(from as int, to as int),
{
    let mut r: Vec<char> = Vec::new();
    let mut k: usize = from;
    while k < to
        invariant
            from <= k <= to <= v@.len(),
            r@ == v@.subrange(from as int, k as int),
        decreases to - k,
    {
        r.push(v[k]);
        k = k + 1;
    }
    r
}

impl CrateRef {
    /// Parse `crate` or `crate@version`.
    ///
    /// The SemVer shape of the version part is decided by the regex crate
    /// (see [`semver_accepts`]).
    pub fn parse(raw: &str) -> (r: Result<Self, AppError>)
        ensures
            ref_agrees(r, crate_ref_outcome(trim(raw@), ref_semver(trim(raw@)))),
    {
        let c = chars_of(raw);
        let t = trim_chars(c.as_slice());
        if t.len() == 0 {
            return Err(AppError::new(ErrorKind::InvalidInput, "crate name is empty"));
        }
        let i = first_at(t.as_slice());
        if i < t.len() {
            proof {
                assert(has_at(t@)) by {
                    assert(t@[i as int] == '@');
                }
            }
            let name_part = copy_range(t.as_slice(), 0, i);
            let ver_part = copy_range(t.as_slice(), i + 1, t.len());
            proof {
                assert(name_part@ == before_at(t@));
                assert(ver_part@ == after_at(t@));
            }
            if name_part.len() == 0 {
                return Err(AppError::new(ErrorKind::InvalidInput, "crate name is empty before '@'"));
            }
            if ver_part.len() == 0 {
                return Err(AppError::new(ErrorKind::InvalidInput, "version is empty after '@'"));
            }
            let j = first_at(ver_part.as_slice());
            if j < ver_part.len() {
                proof {
                    assert(ver_part@[j as int] == '@');
                }
                return Err(
                    AppError::new(
                        ErrorKind::InvalidInput,
                        "crate reference must contain at most one '@'",
                    ),
                );
            }
            proof {
                assert(!has_at(ver_part@));
            }
            let ns = string_of(name_part.as_slice());
            let name = match CrateName::parse(ns.as_str()) {
                Ok(n) => n,
                Err(e) => {
                    return Err(e);
                },
            };
            let vs = string_of(ver_part.as_slice());
            let version = match VersionArg::parse(vs.as_str()) {
                Ok(v) => v,
                Err(e) => {
                    return Err(e);
                },
            };
            Ok(CrateRef { name, version: Some(version) })
        } else {
            proof {
                assert(!has_at(t@));
                lemma_trim_idempotent(raw@);
            }
            let ts = string_of(t.as_slice());
            let name = match CrateName::parse(ts.as_str()) {
                Ok(n) => n,
                Err(e) => {
                    return Err(e);
                },
            };
            Ok(CrateRef { name, version: None })
        }
    }

    /// Merge `@version` sugar with an optional `--crate-version` flag.
    ///
    /// Precedence: when both are present they must agree; otherwise the
    /// non-empty source wins. Missing both → `latest`.
    pub fn into_name_and_version(self, crate_version_flag: Option<&str>) -> (r: Result<
        (CrateName, VersionArg),
        AppError,
    >)
        ensures
            ({
                let at = match self.version {
                    Some(v) => Some(v@),
                    None => None,
                };
                merge_agrees(
                    r,
                    self.name@,
                    merge_outcome(at, trimmed_flag(crate_version_flag), flag_semver(crate_version_flag)),
                )
            }),
    {
        let flag: Option<String> = match crate_version_flag {
            Some(s) => {
                let v = chars_of(s);
                let t = trim_chars(v.as_slice());
                proof {
                    lemma_trim_idempotent(s@);
                }
                if t.len() > 0 {
                    Some(string_of(t.as_slice()))
                } else {
                    None
                }
            },
            None => None,
        };
        match (self.version, flag) {
            (Some(from_at), Some(flag_raw)) => {
                let from_flag = match VersionArg::parse(flag_raw.as_str()) {
                    Ok(v) => v,
                    Err(e) => {
                        return Err(e);
                    },
                };
                let a = chars_of(from_at.as_str());
                let b = chars_of(from_flag.as_str());
                if a.len() != b.len() || !crate::text::starts_with_exec(a.as_slice(), b.as_slice()) {
                    proof {
                        if a@.len() == b@.len() {
                            assert(a@.take(b@.len() as int) == a@);
                        }
                    }
                    let mut m = String::new();
                    push_str(&mut m, "conflicting versions: crate@");
                    push_str(&mut m, from_at.as_str());
                    push_str(&mut m, " vs --crate-version ");
                    push_str(&mut m, from_flag.as_str());
                    return Err(AppError::new(ErrorKind::InvalidInput, m.as_str()));
                }
                proof {
                    assert(a@.take(b@.len() as int) == a@);
                }
                Ok((self.name, from_at))
            },
            (Some(from_at), None) => Ok((self.name, from_at)),
            (None, flag_raw) => {
                let v = match &flag_raw {
                    Some(f) => VersionArg::parse_opt(Some(f.as_str())),
                    None => VersionArg::parse_opt(None),
                };
                match v {
                    Ok(x) => Ok((self.name, x)),
                    Err(e) => Err(e),
                }
            },
        }
    }
}

/// Merging `@version` sugar with a flag: agreeing sources never conflict, a
/// lone source wins, and neither means `latest`.
pub proof fn lemma_merge_sources(a: Seq<char>, f: Seq<char>, semver: bool)
    ensures
        version_outcome(f, semver) == Ok::<Seq<char>, Seq<char>>(a) ==> merge_outcome(
            Some(a),
            Some(f),
            semver,
        ) == Ok::<Seq<char>, Seq<char>>(a),
        merge_outcome(Some(a), None, semver) == Ok::<Seq<char>, Seq<char>>(a),
        merge_outcome(None, Some(f), semver) == version_outcome(f, semver),
        merge_outcome(None, None, semver) == Ok::<Seq<char>, Seq<char>>("latest"@),
        version_outcome(f, semver) matches Ok(v) && v != a ==> merge_outcome(Some(a), Some(f), semver) is Err,
{
}

} // verus!
