//! `search-in-crate`: resolution of the command's arguments.

use vstd::prelude::*;

use super::coords::{coords_outcome, resolve_crate_coords};
use crate::domain::crate_name::{invalid_input_error, CrateName};
use crate::domain::match_mode::{mode_of_token, MatchMode};
use crate::domain::search_query::{query_rejection, SearchQuery};
use crate::domain::version::VersionArg;
use crate::error::app_error::AppError;
use crate::error::detail::ErrorDetail;
use crate::item_kind::{kind_alias, unknown_kind_error, ItemKind};
use crate::text::{lower_seq, trim};

verus! {

/// The `--item-type` filter named by `item_type`: `Some(None)` for no filter
/// (absent or empty), `Some(Some(k))` for a kind other than a module, and
/// `None` when the filter is rejected.
pub open spec fn kind_filter_value(item_type: Option<&str>) -> Option<Option<ItemKind>> {
    match item_type {
        Some(t) => if t@.len() == 0 {
            Some(None)
        } else {
            match kind_alias(lower_seq(trim(t@))) {
                Some((k, _)) => if k == ItemKind::Module {
                    None
                } else {
                    Some(Some(k))
                },
                None => None,
            }
        },
        None => Some(None),
    }
}

/// `e` is the rejection of the filter `item_type`: an unknown kind, or a
/// module filter (`all.html` has no module index).
pub open spec fn kind_filter_error(e: AppError, item_type: Option<&str>) -> bool {
    match item_type {
        Some(t) => match kind_alias(lower_seq(trim(t@))) {
            Some(_) => e.wf() && e.detail_of() == ErrorDetail::ModuleFilterUnsupported,
            None => unknown_kind_error(e, lower_seq(trim(t@))),
        },
        None => false,
    }
}

/// Parse the optional `--item-type` filter of `search-in-crate`. An empty
/// value means no filter; a module filter is refused.
pub fn kind_filter(item_type: Option<&str>) -> (r: Result<Option<ItemKind>, AppError>)
    ensures
        match kind_filter_value(item_type) {
            Some(v) => r == Ok::<Option<ItemKind>, AppError>(v),
            None => r matches Err(e) && kind_filter_error(e, item_type),
        },
{
    match item_type {
        Some(t) => {
            if t.is_empty() {
                return Ok(None);
            }
            let k = match ItemKind::parse(t) {
                Ok(k) => k,
                Err(e) => {
                    return Err(e);
                },
            };
            if k == ItemKind::Module {
                return Err(AppError::of(ErrorDetail::ModuleFilterUnsupported));
            }
            Ok(Some(k))
        },
        None => Ok(None),
    }
}

/// Resolved arguments of `search-in-crate`.
#[derive(Debug)]
pub struct SearchInCrateArgs {
    /// Crate to search.
    pub crate_name: CrateName,
    /// Version to search.
    pub version: VersionArg,
    /// Validated query (may be empty: list everything).
    pub query: SearchQuery,
    /// Optional kind filter (never a module).
    pub kind_filter: Option<ItemKind>,
    /// Name matching mode.
    pub match_mode: MatchMode,
    /// Hit limit, clamped to the ceiling.
    pub limit: u32,
}

/// Message of an unknown match mode token `t`.
pub open spec fn unknown_mode_message(t: Seq<char>) -> Seq<char> {
    "unknown match mode '"@ + t + "' (expected exact|prefix|substring)"@
}

/// `r` is the resolution of the `search-in-crate` arguments: the crate
/// coordinates are judged first, then the query (empty allowed), the kind filter and the match mode; the
/// limit is clamped to `max_limit`.
pub open spec fn search_in_crate_agrees(
    r: Result<SearchInCrateArgs, AppError>,
    raw: Seq<char>,
    flag: Option<&str>,
    query: Seq<char>,
    item_type: Option<&str>,
    mode: Seq<char>,
    limit: u32,
    max_limit: u32,
) -> bool {
    match coords_outcome(raw, flag) {
        Err(m) => r matches Err(e) && invalid_input_error(e, m),
        Ok((n, v)) => match query_rejection(trim(query), true) {
            Some(d) => r matches Err(e) && e.wf() && e.detail_of() == d,
            None => match kind_filter_value(item_type) {
                None => r matches Err(e) && kind_filter_error(e, item_type),
                Some(kf) => match mode_of_token(lower_seq(trim(mode))) {
                    None => r matches Err(e) && invalid_input_error(
                        e,
                        unknown_mode_message(lower_seq(trim(mode))),
                    ),
                    Some(mm) => r matches Ok(a) && a.crate_name@ == n && a.crate_name.wf()
                        && a.version@ == v && a.query@ == trim(query) && a.kind_filter == kf
                        && a.match_mode == mm && a.limit == (if limit < max_limit {
                        limit
                    } else {
                        max_limit
                    }),
                },
            },
        },
    }
}

/// Resolve the arguments of `search-in-crate` in the order the command
/// checks them: crate reference and version, query, kind filter, match mode;
/// the hit limit is clamped to `max_limit`.
pub fn search_in_crate_args(
    crate_name: &str,
    query: &str,
    crate_version: Option<&str>,
    item_type: Option<&str>,
    limit: u32,
    match_mode: &str,
    max_limit: u32,
) -> (r: Result<SearchInCrateArgs, AppError>)
    ensures
        search_in_crate_agrees(
            r,
            crate_name@,
            crate_version,
            query@,
            item_type,
            match_mode@,
            limit,
            max_limit,
        ),
{
    let coords = resolve_crate_coords(crate_name, crate_version);
    let (name, version) = match coords {
        Ok(p) => p,
        Err(e) => {
            proof {
                assert(search_in_crate_agrees(
                    Err(e),
                    crate_name@,
                    crate_version,
                    query@,
                    item_type,
                    match_mode@,
                    limit,
                    max_limit,
                ));
            }
            return Err(e);
        },
    };
    let q = match SearchQuery::parse(query, true) {
        Ok(q) => q,
        Err(e) => {
            proof {
                assert(search_in_crate_agrees(
                    Err(e),
                    crate_name@,
                    crate_version,
                    query@,
                    item_type,
                    match_mode@,
                    limit,
                    max_limit,
                ));
            }
            return Err(e);
        },
    };
    let kf = match kind_filter(item_type) {
        Ok(k) => k,
        Err(e) => {
            proof {
                assert(search_in_crate_agrees(
                    Err(e),
                    crate_name@,
                    crate_version,
                    query@,
                    item_type,
                    match_mode@,
                    limit,
                    max_limit,
                ));
            }
            return Err(e);
        },
    };
    let mm = match MatchMode::parse(match_mode) {
        Ok(m) => m,
        Err(e) => {
            proof {
                assert(search_in_crate_agrees(
                    Err(e),
                    crate_name@,
                    crate_version,
                    query@,
                    item_type,
                    match_mode@,
                    limit,
                    max_limit,
                ));
            }
            return Err(e);
        },
    };
    let lim = if limit < max_limit {
        limit
    } else {
        max_limit
    };
    let r = Ok(
        SearchInCrateArgs {
            crate_name: name,
            version,
            query: q,
            kind_filter: kf,
            match_mode: mm,
            limit: lim,
        },
    );
    proof {
        assert(search_in_crate_agrees(
            r,
            crate_name@,
            crate_version,
            query@,
            item_type,
            match_mode@,
            limit,
            max_limit,
        ));
    }
    r
}

} // verus!
