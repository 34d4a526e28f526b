//! Crate coordinates shared by `readme`, `get-item` and `search-in-crate`: a
//! crate reference (`name` or `name@version`) merged with `--crate-version`.

use vstd::prelude::*;

use crate::domain::crate_name::{invalid_input_error, CrateName};
use crate::domain::crate_ref::{
    crate_ref_outcome, flag_semver, merge_outcome, ref_semver, trimmed_flag, CrateRef,
};
use crate::domain::version::VersionArg;
use crate::error::app_error::AppError;
use crate::text::trim;

verus! {

/// Outcome of resolving the reference `raw` and the flag: the crate name and
/// the version token, or the message of the rejection. The reference is
/// judged first; its `@` part and the flag are then merged. SemVer shapes are
/// judged by [`crate::domain::version::semver_accepts`].
pub open spec fn coords_outcome(raw: Seq<char>, flag: Option<&str>) -> Result<
    (Seq<char>, Seq<char>),
    Seq<char>,
> {
    match crate_ref_outcome(trim(raw), ref_semver(trim(raw))) {
        Err(m) => Err(m),
        Ok((n, at)) => match merge_outcome(at, trimmed_flag(flag), flag_semver(flag)) {
            Ok(v) => Ok((n, v)),
            Err(m) => Err(m),
        },
    }
}

/// `r` is the result that the outcome `out` describes.
pub open spec fn coords_agree(
    r: Result<(CrateName, VersionArg), AppError>,
    out: Result<(Seq<char>, Seq<char>), Seq<char>>,
) -> bool {
    match out {
        Ok((n, v)) => r matches Ok((a, b)) && a@ == n && a.wf() && b@ == v,
        Err(m) => r matches Err(e) && invalid_input_error(e, m),
    }
}

/// Resolve the crate name and version of a command: parse `raw` as `crate`
/// or `crate@version`, then merge its version with `--crate-version`
/// (agreeing sources, the lone source, or `latest`).
pub fn resolve_crate_coords(raw: &str, flag: Option<&str>) -> (r: Result<(CrateName, VersionArg), AppError>)
    ensures
        coords_agree(r, coords_outcome(raw@, flag)),
{
    let cr = CrateRef::parse(raw);
    match cr {
        Err(e) => Err(e),
        Ok(c) => c.into_name_and_version(flag),
    }
}

} // verus!
