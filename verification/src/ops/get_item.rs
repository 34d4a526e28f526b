//! `get-item`: argument resolution, the crate-prefix advisory, and the
//! suggestion wrapping applied after a not-found.

use vstd::prelude::*;

use super::coords::{coords_outcome, resolve_crate_coords};
use crate::domain::crate_name::{invalid_input_error, CrateName};
use crate::domain::item_path::{item_path_outcome, ItemPath};
use crate::domain::version::VersionArg;
use crate::error::app_error::AppError;
use crate::error::detail::ErrorDetail;
use crate::error::suggestion::{copy_suggestions, Suggestion};
use crate::item_kind::{kind_alias, rustc_crate_name, rustc_name, unknown_kind_error, ItemKind};
use crate::text::{chars_of, eq_str, lower_seq, str_contains, trim};

verus! {

/// `r` is `base` with the ranked `names` attached: `base` itself when the
/// caller did not ask for suggestions and none were ranked; otherwise a
/// well-formed wrapper of `base`'s entry that carries the list.
pub open spec fn suggested(r: AppError, base: AppError, names: Seq<Suggestion>, suggest: bool) -> bool {
    if !suggest && names.len() == 0 {
        r == base
    } else {
        r.wf() && match r.detail_of() {
            ErrorDetail::WithSuggestions { base: b, suggestions } => *b == base.detail_of()
                && suggestions@ == names,
            _ => false,
        }
    }
}

/// Attach ranked suggestions to a not-found error. A plain miss without
/// `--suggest` and with nothing ranked keeps its error unchanged; otherwise
/// the base entry is wrapped, so the list renders in both languages and
/// reaches the wire as data.
pub fn with_suggestions(base: AppError, names: &[Suggestion], suggest: bool) -> (r: AppError)
    ensures
        suggested(r, base, names@, suggest),
{
    if !suggest && names.len() == 0 {
        return base;
    }
    let detail = base.into_detail();
    AppError::of(
        ErrorDetail::WithSuggestions { base: Box::new(detail), suggestions: copy_suggestions(names) },
    )
}

/// The leading path segment names some other crate than the requested one:
/// it is neither the crate's name nor its rustc spelling, and it looks like a
/// crate name (it holds `-` or `_`). Advisory only: the fetch still runs.
pub open spec fn prefix_mismatch(crate_name: Seq<char>, first: Seq<char>) -> bool {
    first != crate_name && first != rustc_name(crate_name) && (first.contains('-')
        || first.contains('_'))
}

/// Whether to warn that the item path's first segment names another crate.
pub fn crate_prefix_mismatch(crate_name: &CrateName, segs: &[String]) -> (r: bool)
    ensures
        r == (segs@.len() > 0 && prefix_mismatch(crate_name@, segs@[0]@)),
{
    if segs.len() == 0 {
        return false;
    }
    let first = chars_of(segs[0].as_str());
    let rustc = rustc_crate_name(crate_name.as_str());
    let same = eq_str(first.as_slice(), crate_name.as_str());
    let same_rustc = eq_str(first.as_slice(), rustc.as_str());
    let hyphen = str_contains(first.as_slice(), "-");
    let underscore = str_contains(first.as_slice(), "_");
    proof {
        reveal_strlit("-");
        reveal_strlit("_");
        crate::text::lemma_contains_single(first@, "-"@);
        crate::text::lemma_contains_single(first@, "_"@);
    }
    !same && !same_rustc && (hyphen || underscore)
}

/// Resolved arguments of `get-item`.
#[derive(Debug)]
pub struct GetItemArgs {
    /// Crate to read.
    pub crate_name: CrateName,
    /// Version to read.
    pub version: VersionArg,
    /// Kind used to build the page URL.
    pub kind: ItemKind,
    /// Kind as echoed on the wire (`method` stays `method`).
    pub kind_echo: &'static str,
    /// Validated item path.
    pub item_path: ItemPath,
    /// The path's first segment seems to name another crate (advisory).
    pub crate_prefix_differs: bool,
}

/// `r` is the resolution of the `get-item` arguments: crate coordinates
/// first, then the item type, then the item path.
pub open spec fn get_item_agrees(
    r: Result<GetItemArgs, AppError>,
    raw: Seq<char>,
    flag: Option<&str>,
    item_type: Seq<char>,
    path: Seq<char>,
) -> bool {
    match coords_outcome(raw, flag) {
        Err(m) => r matches Err(e) && invalid_input_error(e, m),
        Ok((n, v)) => match kind_alias(lower_seq(trim(item_type))) {
            None => r matches Err(e) && unknown_kind_error(e, lower_seq(trim(item_type))),
            Some((k, echo)) => match item_path_outcome(path) {
                Err(m) => r matches Err(e) && invalid_input_error(e, m),
                Ok(segs) => r matches Ok(a) && a.crate_name@ == n && a.crate_name.wf()
                    && a.version@ == v && a.kind == k && a.kind_echo@ == echo
                    && a.item_path.segments_view() == segs && a.item_path.raw_view() == trim(path)
                    && a.item_path.wf() && a.crate_prefix_differs == (segs.len() > 0
                    && prefix_mismatch(n, segs[0])),
            },
        },
    }
}

/// Resolve the arguments of `get-item` in the order the command checks them:
/// crate reference and version, item type, item path; then note whether the
/// path's first segment seems to name another crate.
pub fn get_item_args(
    crate_name: &str,
    item_type: &str,
    item_path: &str,
    crate_version: Option<&str>,
) -> (r: Result<GetItemArgs, AppError>)
    ensures
        get_item_agrees(r, crate_name@, crate_version, item_type@, item_path@),
{
    let coords = resolve_crate_coords(crate_name, crate_version);
    let (name, version) = match coords {
        Ok(p) => p,
        Err(e) => {
            proof {
                assert(get_item_agrees(
                    Err(e),
                    crate_name@,
                    crate_version,
                    item_type@,
                    item_path@,
                ));
            }
            return Err(e);
        },
    };
    let (kind, kind_echo) = match ItemKind::parse_with_echo(item_type) {
        Ok(p) => p,
        Err(e) => {
            proof {
                assert(get_item_agrees(
                    Err(e),
                    crate_name@,
                    crate_version,
                    item_type@,
                    item_path@,
                ));
            }
            return Err(e);
        },
    };
    let path = match ItemPath::parse(item_path) {
        Ok(p) => p,
        Err(e) => {
            proof {
                assert(get_item_agrees(
                    Err(e),
                    crate_name@,
                    crate_version,
                    item_type@,
                    item_path@,
                ));
            }
            return Err(e);
        },
    };
    let differs = crate_prefix_mismatch(&name, path.segments());
    let r = Ok(
        GetItemArgs {
            crate_name: name,
            version,
            kind,
            kind_echo,
            item_path: path,
            crate_prefix_differs: differs,
        },
    );
    proof {
        assert(get_item_agrees(r, crate_name@, crate_version, item_type@, item_path@));
    }
    r
}

} // verus!
