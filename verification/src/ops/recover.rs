//! Not-found recovery of `get-item`: a catalog-backed ladder that either
//! resolves the item under its canonical path or answers the miss with
//! ranked suggestions.
//!
//! Two arms, chosen by the path's shape: `Parent::member` (methods,
//! associated items, variants, fields) resolves the parent and retries the
//! member; a free item resolves its canonical (re-export) path. The pages,
//! the catalog and the ranking are fetched by the caller; [`Recovery::step`]
//! takes each outcome and decides the next request or the final answer.

use vstd::prelude::*;

use super::get_item::{suggested, with_suggestions};
use crate::config::Config;
use crate::docs_rs::{GetItemData, SearchInCrateHit};
use crate::domain::item_path::{join_with, split_from, split_on, split_progress, strings_view};
use crate::domain::search_query::{query_rejection, SearchQuery};
use crate::error::app_error::AppError;
use crate::error::kind::ErrorKind;
use crate::error::suggestion::Suggestion;
use crate::item_kind::ItemKind;
use crate::render::budget::{apply_truncation_to_item, truncated_text};
use crate::text::{chars_of, occurs_at_exec, push_str, starts_with, string_of, trim};

verus! {

/// The pieces that are not empty, in order.
pub open spec fn nonempty_pieces(pieces: Seq<Seq<char>>) -> Seq<Seq<char>>
    decreases pieces.len(),
{
    if pieces.len() == 0 {
        Seq::empty()
    } else {
        let init = nonempty_pieces(pieces.drop_last());
        if pieces.last().len() > 0 {
            init.push(pieces.last())
        } else {
            init
        }
    }
}

/// Append `piece` to `parts` when it is not empty.
fn keep_nonempty(parts: &mut Vec<String>, piece: &[char], Ghost(done): Ghost<Seq<Seq<char>>>)
    requires
        strings_view(old(parts)@) == nonempty_pieces(done),
    ensures
        strings_view(final(parts)@) == nonempty_pieces(done.push(piece@)),
{
    proof {
        assert(done.push(piece@).drop_last() == done);
    }
    if piece.len() > 0 {
        parts.push(string_of(piece));
        proof {
            assert(strings_view(parts@) =~= nonempty_pieces(done).push(piece@));
        }
    }
}

/// Segments of a `::`-separated path, empty pieces dropped.
pub fn split_path_segments(path: &str) -> (r: Vec<String>)
    ensures
        strings_view(r@) == nonempty_pieces(split_on(path@, "::"@)),
{
    let n = chars_of(path);
    let sep = chars_of("::");
    proof {
        reveal_strlit("::");
    }
    let mut parts: Vec<String> = Vec::new();
    let mut cur: Vec<char> = Vec::new();
    let ghost mut done: Seq<Seq<char>> = Seq::empty();
    let mut i: usize = 0;
    proof {
        assert(n@.skip(0) == n@);
        assert(Seq::<Seq<char>>::empty() + split_on(n@, "::"@) == split_on(n@, "::"@));
        assert(strings_view(parts@) =~= nonempty_pieces(done));
    }
    while i < n.len()
        invariant
            0 <= i <= n@.len(),
            n@ == path@,
            sep@ == "::"@,
            split_progress(n@, i as int, done, cur@),
            strings_view(parts@) == nonempty_pieces(done),
        decreases n@.len() - i,
    {
        let ghost s = n@.skip(i as int);
        proof {
            reveal_strlit("::");
        }
        if occurs_at_exec(n.as_slice(), sep.as_slice(), i) {
            proof {
                assert(s.take(2) =~= n@.subrange(i as int, i + 2));
                assert(starts_with(s, "::"@));
                assert(s.skip(2) == n@.skip(i + 2));
                assert(done + (seq![cur@] + split_from(s.skip(2), "::"@, Seq::empty())) == done.push(
                    cur@,
                ) + split_from(n@.skip(i + 2), "::"@, Seq::empty()));
            }
            keep_nonempty(&mut parts, cur.as_slice(), Ghost(done));
            proof {
                done = done.push(cur@);
            }
            cur = Vec::new();
            i = i + 2;
        } else {
            proof {
                assert(!starts_with(s, "::"@)) by {
                    if 2 <= s.len() {
                        assert(s.take(2) =~= n@.subrange(i as int, i + 2));
                    }
                }
                assert(s.drop_first() == n@.skip(i + 1));
                assert(s[0] == n@[i as int]);
            }
            cur.push(n[i]);
            i = i + 1;
        }
    }
    proof {
        assert(n@.skip(i as int).len() == 0);
        assert(done + seq![cur@] == done.push(cur@));
    }
    keep_nonempty(&mut parts, cur.as_slice(), Ghost(done));
    parts
}

/// The first `k` segments joined with `::`.
fn join_prefix(segs: &[String], k: usize) -> (r: String)
    requires
        k <= segs@.len(),
    ensures
        r@ == join_with(strings_view(segs@).take(k as int), "::"@),
{
    let mut out = String::new();
    let mut i: usize = 0;
    let ghost sv = strings_view(segs@);
    while i < k
        invariant
            0 <= i <= k <= segs@.len(),
            sv == strings_view(segs@),
            out@ == join_with(sv.take(i as int), "::"@),
        decreases k - i,
    {
        proof {
            assert(sv.take(i + 1).drop_last() == sv.take(i as int));
            assert(sv.take(i + 1).last() == segs@[i as int]@);
        }
        if i > 0 {
            push_str(&mut out, "::");
        } else {
            proof {
                assert(out@ == Seq::<char>::empty());
            }
        }
        push_str(&mut out, segs[i].as_str());
        i = i + 1;
        proof {
            if i == 1 {
                assert(out@ =~= sv.take(1)[0]);
            }
        }
    }
    out
}

/// Owned copy of a string.
fn copy_string(s: &str) -> (r: String)
    ensures
        r@ == s@,
{
    let v = chars_of(s);
    string_of(v.as_slice())
}

/// Catalog rows to rank suggestions over. A prefix query for a typo matches
/// nothing, so empty rows are widened to the whole index: `widened` is the
/// same catalog read with an empty query, done only when the rows are empty
/// (`None` when it was not done). A failed widening never masks the miss: the
/// empty rows stay.
pub fn widened_hits(
    hits: Vec<SearchInCrateHit>,
    widened: Option<Result<Vec<SearchInCrateHit>, AppError>>,
) -> (r: Vec<SearchInCrateHit>)
    ensures
        hits@.len() > 0 ==> r@ == hits@,
        hits@.len() == 0 ==> match widened {
            Some(Ok(full)) => r@ == full@,
            _ => r@ == hits@,
        },
{
    if hits.len() > 0 {
        return hits;
    }
    match widened {
        Some(Ok(full)) => full,
        _ => hits,
    }
}

/// The recovery arm, chosen by the shape of the requested path.
#[derive(Debug)]
pub enum RecoveryArm {
    /// `Parent::member`: resolve the parent through the catalog, then retry
    /// the member under it.
    Member {
        /// Leaf name of the parent (`Runtime` in `Runtime::new`).
        parent_leaf: String,
        /// Requested parent path (`Runtime`).
        parent_path: String,
    },
    /// A free item: resolve its canonical path through the catalog.
    Reexport,
}

/// What stays fixed while a recovery runs.
#[derive(Debug)]
pub struct RecoveryContext {
    /// Which arm runs.
    pub arm: RecoveryArm,
    /// The not-found said the parent page was found and only the member's
    /// anchor was absent.
    pub anchor_miss: bool,
    /// `--suggest` was given.
    pub suggest: bool,
    /// Kind of the requested item.
    pub kind: ItemKind,
    /// Item path as the caller typed it.
    pub item_path: String,
    /// Leaf the answer is named after (the member, or the free item).
    pub leaf: String,
    /// Output budget for the resolved page.
    pub cfg: Config,
}

/// Where a recovery stands: the request it is waiting on.
#[derive(Debug)]
pub enum RecoveryStage {
    /// Nothing requested yet.
    Start,
    /// Member names of the requested parent, asked first after an anchor miss.
    EarlyMembers,
    /// The catalog query.
    Catalog,
    /// Member names of the requested parent, after the catalog failed.
    CatalogFailedMembers,
    /// Ranked suggestions over the (widened) catalog.
    Ranked,
    /// The item under the resolved path.
    Resolved {
        /// Resolved parent path (member arm) or canonical path (free item).
        resolved: String,
    },
    /// Member names of the resolved parent, after the member was missing there.
    ResolvedMembers {
        /// The not-found of the resolved fetch.
        error: AppError,
    },
}

/// A recovery in progress: its context, the error it may still answer with,
/// and the request it waits on.
#[derive(Debug)]
pub struct Recovery {
    /// Fixed inputs.
    pub ctx: RecoveryContext,
    /// The not-found that started the recovery.
    pub base: AppError,
    /// The pending request.
    pub stage: RecoveryStage,
}

/// Outside work the caller performs next.
#[derive(Debug)]
pub enum RecoveryRequest {
    /// Rank member names of the parent page: the requested parent, or the
    /// one the catalog resolved (`resolved`). An empty list on any failure.
    MemberNames {
        /// Parent path the names are labelled with.
        parent_path: String,
        /// The parent is the resolved one.
        resolved: bool,
    },
    /// Query the crate catalog (`all.html`) under prefix matching.
    QueryCatalog {
        /// Leaf to look up.
        query: SearchQuery,
        /// Kind filter.
        kind: Option<ItemKind>,
    },
    /// Rank suggestions for `leaf` over the catalog rows, widened when empty
    /// (see [`widened_hits`]).
    WidenAndRank {
        /// Leaf to rank against.
        leaf: String,
        /// Kind filter of the widened catalog.
        kind: Option<ItemKind>,
    },
    /// Fetch the member `leaf` under the resolved parent.
    FetchMember {
        /// Resolved parent path.
        parent_path: String,
        /// Member name.
        leaf: String,
    },
    /// Fetch the item at its canonical path.
    FetchPath {
        /// Canonical path segments.
        segments: Vec<String>,
    },
}

/// Outcome of a request, fed back to [`Recovery::step`].
#[derive(Debug)]
pub enum RecoveryEvent {
    /// The recovery begins.
    Begin,
    /// Ranked member names (possibly none).
    MemberNames(Vec<Suggestion>),
    /// The catalog could not be read.
    CatalogFailed,
    /// The catalog answered: the unique resolution, when there is one.
    CatalogAnswer(Option<String>),
    /// Ranked suggestions over the catalog.
    Ranked(Vec<Suggestion>),
    /// The resolved item.
    Fetched(GetItemData),
    /// The resolved fetch failed; `anchor_miss` when it failed on a member anchor.
    FetchFailed {
        /// The failure.
        error: AppError,
        /// The parent page was found but the member anchor was absent.
        anchor_miss: bool,
    },
}

/// The next move of a recovery.
#[derive(Debug)]
pub enum RecoveryStep {
    /// Perform the request and feed its outcome to the returned recovery.
    Next(Recovery, RecoveryRequest),
    /// The recovery is over.
    Done(Result<GetItemData, AppError>),
}

/// The event answers the request the stage waits on.
pub open spec fn answers(stage: RecoveryStage, event: RecoveryEvent) -> bool {
    match stage {
        RecoveryStage::Start => event is Begin,
        RecoveryStage::EarlyMembers => event is MemberNames,
        RecoveryStage::CatalogFailedMembers => event is MemberNames,
        RecoveryStage::ResolvedMembers { .. } => event is MemberNames,
        RecoveryStage::Catalog => event is CatalogFailed || event is CatalogAnswer,
        RecoveryStage::Ranked => event is Ranked,
        RecoveryStage::Resolved { .. } => event is Fetched || event is FetchFailed,
    }
}

/// `n` carries on with the context `ctx` and the error `base`, waiting at `stage`.
pub open spec fn carries_on(ctx: RecoveryContext, base: AppError, n: Recovery, stage: RecoveryStage) -> bool {
    n.ctx == ctx && n.base == base && n.stage == stage
}

/// `n` carries on with `ctx` and `base`, waiting on the item under `resolved`.
pub open spec fn waits_resolved(ctx: RecoveryContext, base: AppError, n: Recovery, resolved: Seq<char>) -> bool {
    &&& n.ctx == ctx
    &&& n.base == base
    &&& n.stage matches RecoveryStage::Resolved { resolved: x } && x@ == resolved
}

/// `r` asks for member names of `parent_path` and waits at `stage`.
pub open spec fn asks_members(
    ctx: RecoveryContext,
    base: AppError,
    r: RecoveryStep,
    parent_path: Seq<char>,
    resolved: bool,
    stage: RecoveryStage,
) -> bool {
    r matches RecoveryStep::Next(n, RecoveryRequest::MemberNames { parent_path: p, resolved: x })
        && carries_on(ctx, base, n, stage) && p@ == parent_path && x == resolved
}

/// `r` queries the catalog with the arm's leaf, trimmed, and kind filter; a
/// blank or otherwise rejected leaf ends the recovery with the query's error.
pub open spec fn asks_catalog(ctx: RecoveryContext, base: AppError, r: RecoveryStep) -> bool {
    match query_rejection(trim(catalog_leaf(ctx)), false) {
        Some(d) => r matches RecoveryStep::Done(Err(e)) && e.wf() && e.detail_of() == d,
        None => r matches RecoveryStep::Next(n, RecoveryRequest::QueryCatalog { query: q, kind: k })
            && carries_on(ctx, base, n, RecoveryStage::Catalog) && q@ == trim(catalog_leaf(ctx))
            && k == catalog_kind(ctx),
    }
}

/// `r` ends the recovery with `base` and the ranked `names` attached.
pub open spec fn fails_with(r: RecoveryStep, base: AppError, names: Seq<Suggestion>, suggest: bool) -> bool {
    r matches RecoveryStep::Done(Err(e)) && suggested(e, base, names, suggest)
}

/// `d` is the fetched `data` answered under the typed `item_path`, named
/// `name`, marked as resolved to `label`, and cut to the output budget.
pub open spec fn answered_item(
    d: GetItemData,
    data: GetItemData,
    item_path: Seq<char>,
    name: Seq<char>,
    label: Seq<char>,
    max_bytes: u64,
) -> bool {
    &&& d.item_path@ == item_path
    &&& d.item_name@ == name
    &&& d.resolved_item_path matches Some(x) && x@ == label
    &&& d.markdown@ == truncated_text(data.markdown@, max_bytes).0
    &&& d.truncated == truncated_text(data.markdown@, max_bytes).1
    &&& d.crate_name == data.crate_name
    &&& d.item_type == data.item_type
    &&& d.version == data.version
    &&& d.resolved_version == data.resolved_version
    &&& d.empty == data.empty
    &&& d.source_url == data.source_url
    &&& d.title == data.title
    &&& d.cache_hit == data.cache_hit
    &&& d.extraction == data.extraction
    &&& d.anchor_family == data.anchor_family
}

/// The kind filter of the catalog: none for a parent, the item's own kind
/// for a free item.
pub open spec fn catalog_kind(ctx: RecoveryContext) -> Option<ItemKind> {
    match ctx.arm {
        RecoveryArm::Member { .. } => None,
        RecoveryArm::Reexport => Some(ctx.kind),
    }
}

/// The leaf the catalog is queried with: the parent's, or the item's own.
pub open spec fn catalog_leaf(ctx: RecoveryContext) -> Seq<char> {
    match ctx.arm {
        RecoveryArm::Member { parent_leaf, .. } => parent_leaf@,
        RecoveryArm::Reexport => ctx.leaf@,
    }
}

/// One move of the recovery ladder, for an event that answers the stage.
///
/// Member arm: after an anchor miss the requested parent's member names come
/// first (a non-empty list ends the recovery); then the catalog is queried for
/// the parent. A catalog failure gives up with the starting error, except
/// after an anchor miss, where the parent's member names are offered. No
/// unique parent: suggestions ranked over the widened catalog. A unique
/// parent: the member is fetched under it; a not-found there on a member
/// anchor (or after an anchor miss) offers the resolved parent's member
/// names; any other failure is the answer.
///
/// Free-item arm: the catalog is queried for the leaf under the item's kind;
/// a failure gives up with the starting error; no unique canonical path gives
/// ranked suggestions; a unique one is fetched by its segments, and its
/// failure is the answer.
pub open spec fn step_agrees(rec: Recovery, event: RecoveryEvent, r: RecoveryStep) -> bool {
    let ctx = rec.ctx;
    match rec.stage {
        RecoveryStage::Start => match ctx.arm {
            RecoveryArm::Member { parent_path, .. } => if ctx.anchor_miss {
                asks_members(ctx, rec.base, r, parent_path@, false, RecoveryStage::EarlyMembers)
            } else {
                asks_catalog(ctx, rec.base, r)
            },
            RecoveryArm::Reexport => asks_catalog(ctx, rec.base, r),
        },
        RecoveryStage::EarlyMembers => match event {
            RecoveryEvent::MemberNames(names) => if names@.len() > 0 {
                fails_with(r, rec.base, names@, ctx.suggest)
            } else {
                asks_catalog(ctx, rec.base, r)
            },
            _ => false,
        },
        RecoveryStage::Catalog => match event {
            RecoveryEvent::CatalogFailed => match ctx.arm {
                RecoveryArm::Member { parent_path, .. } => if ctx.anchor_miss {
                    asks_members(
                        ctx,
                        rec.base,
                        r,
                        parent_path@,
                        false,
                        RecoveryStage::CatalogFailedMembers,
                    )
                } else {
                    r == RecoveryStep::Done(Err(rec.base))
                },
                RecoveryArm::Reexport => r == RecoveryStep::Done(Err(rec.base)),
            },
            RecoveryEvent::CatalogAnswer(None) => r matches RecoveryStep::Next(
                n,
                RecoveryRequest::WidenAndRank { leaf, kind },
            ) && carries_on(ctx, rec.base, n, RecoveryStage::Ranked) && leaf@ == catalog_leaf(ctx) && kind
                == catalog_kind(ctx),
            RecoveryEvent::CatalogAnswer(Some(p)) => match ctx.arm {
                RecoveryArm::Member { .. } => r matches RecoveryStep::Next(
                    n,
                    RecoveryRequest::FetchMember { parent_path, leaf },
                ) && waits_resolved(ctx, rec.base, n, p@) && parent_path@ == p@ && leaf@
                    == ctx.leaf@,
                RecoveryArm::Reexport => r matches RecoveryStep::Next(
                    n,
                    RecoveryRequest::FetchPath { segments },
                ) && waits_resolved(ctx, rec.base, n, p@) && strings_view(segments@)
                    == nonempty_pieces(split_on(p@, "::"@)),
            },
            _ => false,
        },
        RecoveryStage::CatalogFailedMembers => match event {
            RecoveryEvent::MemberNames(names) => fails_with(r, rec.base, names@, ctx.suggest),
            _ => false,
        },
        RecoveryStage::Ranked => match event {
            RecoveryEvent::Ranked(names) => fails_with(r, rec.base, names@, ctx.suggest),
            _ => false,
        },
        RecoveryStage::Resolved { resolved } => match event {
            RecoveryEvent::Fetched(data) => r matches RecoveryStep::Done(Ok(d)) && answered_item(
                d,
                data,
                ctx.item_path@,
                ctx.leaf@,
                match ctx.arm {
                    RecoveryArm::Member { .. } => resolved@ + "::"@ + ctx.leaf@,
                    RecoveryArm::Reexport => resolved@,
                },
                ctx.cfg.max_output_bytes,
            ),
            RecoveryEvent::FetchFailed { error, anchor_miss } => match ctx.arm {
                RecoveryArm::Member { .. } => if error.kind_of() == ErrorKind::NotFound && (
                ctx.anchor_miss || anchor_miss) {
                    asks_members(
                        ctx,
                        rec.base,
                        r,
                        resolved@,
                        true,
                        RecoveryStage::ResolvedMembers { error },
                    )
                } else {
                    r == RecoveryStep::Done(Err(error))
                },
                RecoveryArm::Reexport => r == RecoveryStep::Done(Err(error)),
            },
            _ => false,
        },
        RecoveryStage::ResolvedMembers { error } => match event {
            RecoveryEvent::MemberNames(names) => fails_with(r, error, names@, ctx.suggest),
            _ => false,
        },
    }
}

/// How far along the ladder a stage is.
pub open spec fn stage_rank(stage: RecoveryStage) -> nat {
    match stage {
        RecoveryStage::Start => 0,
        RecoveryStage::EarlyMembers => 1,
        RecoveryStage::Catalog => 2,
        RecoveryStage::CatalogFailedMembers => 3,
        RecoveryStage::Ranked => 3,
        RecoveryStage::Resolved { .. } => 3,
        RecoveryStage::ResolvedMembers { .. } => 4,
    }
}

/// A recovery is one-shot and bounded: every step that does not end it
/// moves strictly further along a ladder of five stages, so a recovery makes
/// at most four requests before it answers.
pub proof fn lemma_recovery_bounded(rec: Recovery, event: RecoveryEvent, r: RecoveryStep)
    requires
        answers(rec.stage, event),
        step_agrees(rec, event, r),
    ensures
        r matches RecoveryStep::Next(n, _) ==> stage_rank(rec.stage) < stage_rank(n.stage)
            <= 4,
{
}

impl RecoveryContext {
    /// Context of a recovery. `member` says that the path has the
    /// `Parent::member` shape, judged on `segs_detect` (the requested
    /// segments without a leading crate prefix), which then holds at least a
    /// parent and a member; `segs` are the requested segments.
    pub fn new(
        member: bool,
        anchor_miss: bool,
        suggest: bool,
        kind: ItemKind,
        item_path: &str,
        segs: &[String],
        segs_detect: &[String],
        cfg: Config,
    ) -> (r: Self)
        requires
            member ==> segs_detect@.len() >= 2,
        ensures
            r.anchor_miss == anchor_miss,
            r.suggest == suggest,
            r.kind == kind,
            r.item_path@ == item_path@,
            r.cfg == cfg,
            member ==> ({
                let sd = strings_view(segs_detect@);
                &&& r.arm matches RecoveryArm::Member { parent_leaf, parent_path }
                    && parent_leaf@ == sd[sd.len() - 2] && parent_path@ == join_with(
                    sd.take(sd.len() - 1),
                    "::"@,
                )
                &&& r.leaf@ == sd[sd.len() - 1]
            }),
            !member ==> r.arm is Reexport && r.leaf@ == (if segs@.len() > 0 {
                segs@.last()@
            } else {
                item_path@
            }),
    {
        if member {
            let n = segs_detect.len();
            let parent_leaf = copy_string(segs_detect[n - 2].as_str());
            let parent_path = join_prefix(segs_detect, n - 1);
            let leaf = copy_string(segs_detect[n - 1].as_str());
            RecoveryContext {
                arm: RecoveryArm::Member { parent_leaf, parent_path },
                anchor_miss,
                suggest,
                kind,
                item_path: copy_string(item_path),
                leaf,
                cfg,
            }
        } else {
            let leaf = if segs.len() > 0 {
                copy_string(segs[segs.len() - 1].as_str())
            } else {
                copy_string(item_path)
            };
            RecoveryContext {
                arm: RecoveryArm::Reexport,
                anchor_miss,
                suggest,
                kind,
                item_path: copy_string(item_path),
                leaf,
                cfg,
            }
        }
    }
}

/// Query the catalog with the arm's leaf and kind filter.
fn query_catalog(ctx: RecoveryContext, base: AppError) -> (r: RecoveryStep)
    ensures
        asks_catalog(ctx, base, r),
{
    let leaf = match &ctx.arm {
        RecoveryArm::Member { parent_leaf, .. } => copy_string(parent_leaf.as_str()),
        RecoveryArm::Reexport => copy_string(ctx.leaf.as_str()),
    };
    let kind = match &ctx.arm {
        RecoveryArm::Member { .. } => None,
        RecoveryArm::Reexport => Some(ctx.kind),
    };
    match SearchQuery::parse(leaf.as_str(), false) {
        Ok(query) => RecoveryStep::Next(
            Recovery { ctx, base, stage: RecoveryStage::Catalog },
            RecoveryRequest::QueryCatalog { query, kind },
        ),
        Err(e) => RecoveryStep::Done(Err(e)),
    }
}

/// Ask for member names of `parent_path`, waiting at `stage`.
fn ask_members(
    ctx: RecoveryContext,
    base: AppError,
    parent_path: &str,
    resolved: bool,
    stage: RecoveryStage,
) -> (r: RecoveryStep)
    ensures
        asks_members(ctx, base, r, parent_path@, resolved, stage),
{
    let p = copy_string(parent_path);
    RecoveryStep::Next(
        Recovery { ctx, base, stage },
        RecoveryRequest::MemberNames { parent_path: p, resolved },
    )
}

impl Recovery {
    /// A recovery of the not-found `base` that has not requested anything yet.
    pub fn begin(ctx: RecoveryContext, base: AppError) -> (r: Self)
        ensures
            r.ctx == ctx,
            r.base == base,
            r.stage is Start,
    {
        Recovery { ctx, base, stage: RecoveryStage::Start }
    }

    /// Take the outcome of the pending request and decide the next move.
    pub fn step(self, event: RecoveryEvent) -> (r: RecoveryStep)
        requires
            answers(self.stage, event),
        ensures
            step_agrees(self, event, r),
    {
        let Recovery { ctx, base, stage } = self;
        match stage {
            RecoveryStage::Start => {
                let early = match &ctx.arm {
                    RecoveryArm::Member { parent_path, .. } => if ctx.anchor_miss {
                        Some(copy_string(parent_path.as_str()))
                    } else {
                        None
                    },
                    RecoveryArm::Reexport => None,
                };
                match early {
                    Some(p) => ask_members(ctx, base, p.as_str(), false, RecoveryStage::EarlyMembers),
                    None => query_catalog(ctx, base),
                }
            },
            RecoveryStage::EarlyMembers => match event {
                RecoveryEvent::MemberNames(names) => {
                    if names.len() > 0 {
                        RecoveryStep::Done(Err(with_suggestions(base, names.as_slice(), ctx.suggest)))
                    } else {
                        query_catalog(ctx, base)
                    }
                },
                _ => RecoveryStep::Done(Err(base)),
            },
            RecoveryStage::Catalog => match event {
                RecoveryEvent::CatalogFailed => {
                    let early = match &ctx.arm {
                        RecoveryArm::Member { parent_path, .. } => if ctx.anchor_miss {
                            Some(copy_string(parent_path.as_str()))
                        } else {
                            None
                        },
                        RecoveryArm::Reexport => None,
                    };
                    match early {
                        Some(p) => ask_members(
                            ctx,
                            base,
                            p.as_str(),
                            false,
                            RecoveryStage::CatalogFailedMembers,
                        ),
                        None => RecoveryStep::Done(Err(base)),
                    }
                },
                RecoveryEvent::CatalogAnswer(None) => {
                    let (leaf, kind) = match &ctx.arm {
                        RecoveryArm::Member { parent_leaf, .. } => (
                            copy_string(parent_leaf.as_str()),
                            None,
                        ),
                        RecoveryArm::Reexport => (copy_string(ctx.leaf.as_str()), Some(ctx.kind)),
                    };
                    RecoveryStep::Next(
                        Recovery { ctx, base, stage: RecoveryStage::Ranked },
                        RecoveryRequest::WidenAndRank { leaf, kind },
                    )
                },
                RecoveryEvent::CatalogAnswer(Some(p)) => {
                    let request = match &ctx.arm {
                        RecoveryArm::Member { .. } => RecoveryRequest::FetchMember {
                            parent_path: copy_string(p.as_str()),
                            leaf: copy_string(ctx.leaf.as_str()),
                        },
                        RecoveryArm::Reexport => RecoveryRequest::FetchPath {
                            segments: split_path_segments(p.as_str()),
                        },
                    };
                    RecoveryStep::Next(
                        Recovery { ctx, base, stage: RecoveryStage::Resolved { resolved: p } },
                        request,
                    )
                },
                _ => RecoveryStep::Done(Err(base)),
            },
            RecoveryStage::CatalogFailedMembers => match event {
                RecoveryEvent::MemberNames(names) => RecoveryStep::Done(
                    Err(with_suggestions(base, names.as_slice(), ctx.suggest)),
                ),
                _ => RecoveryStep::Done(Err(base)),
            },
            RecoveryStage::Ranked => match event {
                RecoveryEvent::Ranked(names) => RecoveryStep::Done(
                    Err(with_suggestions(base, names.as_slice(), ctx.suggest)),
                ),
                _ => RecoveryStep::Done(Err(base)),
            },
            RecoveryStage::Resolved { resolved } => match event {
                RecoveryEvent::Fetched(data) => {
                    let label = match &ctx.arm {
                        RecoveryArm::Member { .. } => {
                            let mut l = copy_string(resolved.as_str());
                            push_str(&mut l, "::");
                            push_str(&mut l, ctx.leaf.as_str());
                            l
                        },
                        RecoveryArm::Reexport => resolved,
                    };
                    let mut data = data;
                    data.item_path = copy_string(ctx.item_path.as_str());
                    data.item_name = copy_string(ctx.leaf.as_str());
                    data.resolved_item_path = Some(label);
                    RecoveryStep::Done(Ok(apply_truncation_to_item(data, &ctx.cfg)))
                },
                RecoveryEvent::FetchFailed { error, anchor_miss } => {
                    let member = match &ctx.arm {
                        RecoveryArm::Member { .. } => true,
                        RecoveryArm::Reexport => false,
                    };
                    if member && error.kind() == ErrorKind::NotFound && (ctx.anchor_miss
                        || anchor_miss) {
                        ask_members(
                            ctx,
                            base,
                            resolved.as_str(),
                            true,
                            RecoveryStage::ResolvedMembers { error },
                        )
                    } else {
                        RecoveryStep::Done(Err(error))
                    }
                },
                _ => RecoveryStep::Done(Err(base)),
            },
            RecoveryStage::ResolvedMembers { error } => match event {
                RecoveryEvent::MemberNames(names) => RecoveryStep::Done(
                    Err(with_suggestions(error, names.as_slice(), ctx.suggest)),
                ),
                _ => RecoveryStep::Done(Err(base)),
            },
        }
    }
}

} // verus!
