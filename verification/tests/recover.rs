use docsrs_cli::config::Config;
use docsrs_cli::docs_rs::{GetItemData, SearchInCrateHit};
use docsrs_cli::error::{AppError, ErrorDetail, ErrorKind, Suggestion};
use docsrs_cli::item_kind::ItemKind;
use docsrs_cli::ops::recover::{
    split_path_segments, widened_hits, Recovery, RecoveryArm, RecoveryContext, RecoveryEvent, RecoveryRequest,
    RecoveryStep,
};

fn segs(v: &[&str]) -> Vec<String> {
    v.iter().map(|s| s.to_string()).collect()
}

fn page(markdown: &str) -> GetItemData {
    GetItemData {
        crate_name: "tokio".to_string(),
        item_type: "method".to_string(),
        item_path: "runtime::Runtime::new".to_string(),
        item_name: "Runtime".to_string(),
        version: "latest".to_string(),
        resolved_version: Some("1.38.0".to_string()),
        markdown: markdown.to_string(),
        empty: false,
        truncated: false,
        source_url: "https://docs.rs/tokio/latest/tokio/runtime/struct.Runtime.html#method.new".to_string(),
        title: "Runtime in tokio::runtime".to_string(),
        cache_hit: false,
        extraction: None,
        anchor_family: Some("method".to_string()),
        resolved_item_path: None,
    }
}

fn member_ctx(anchor_miss: bool, suggest: bool) -> RecoveryContext {
    let s = segs(&["Runtime", "new"]);
    RecoveryContext::new(true, anchor_miss, suggest, ItemKind::Fn, "Runtime::new", &s, &s, Config::default())
}

fn base() -> AppError {
    AppError::of(ErrorDetail::AssocParentPageNotFound)
}

fn next(step: RecoveryStep) -> (Recovery, RecoveryRequest) {
    match step {
        RecoveryStep::Next(r, q) => (r, q),
        RecoveryStep::Done(d) => panic!("recovery ended early: {d:?}"),
    }
}

fn done(step: RecoveryStep) -> Result<GetItemData, AppError> {
    match step {
        RecoveryStep::Done(d) => d,
        RecoveryStep::Next(_, q) => panic!("recovery still running: {q:?}"),
    }
}

#[test]
fn context_splits_parent_and_member() {
    let s = segs(&["tokio", "runtime", "Runtime", "new"]);
    let d = segs(&["runtime", "Runtime", "new"]);
    let c = RecoveryContext::new(true, false, false, ItemKind::Fn, "tokio::runtime::Runtime::new", &s, &d, Config::default());
    match &c.arm {
        RecoveryArm::Member { parent_leaf, parent_path } => {
            assert_eq!(parent_leaf, "Runtime");
            assert_eq!(parent_path, "runtime::Runtime");
        }
        RecoveryArm::Reexport => panic!("member path expected"),
    }
    assert_eq!(c.leaf, "new");
    let c = RecoveryContext::new(false, false, false, ItemKind::Struct, "Builder", &[], &[], Config::default());
    assert!(matches!(c.arm, RecoveryArm::Reexport));
    assert_eq!(c.leaf, "Builder");
}

#[test]
fn member_resolves_through_the_catalog() {
    let rec = Recovery::begin(member_ctx(false, false), base());
    let (rec, req) = next(rec.step(RecoveryEvent::Begin));
    match req {
        RecoveryRequest::QueryCatalog { query, kind } => {
            assert_eq!(query.as_str(), "Runtime");
            assert_eq!(kind, None);
        }
        other => panic!("unexpected {other:?}"),
    }
    let (rec, req) = next(rec.step(RecoveryEvent::CatalogAnswer(Some("runtime::Runtime".to_string()))));
    match req {
        RecoveryRequest::FetchMember { parent_path, leaf } => {
            assert_eq!(parent_path, "runtime::Runtime");
            assert_eq!(leaf, "new");
        }
        other => panic!("unexpected {other:?}"),
    }
    let d = done(rec.step(RecoveryEvent::Fetched(page("Creates a runtime.")))).unwrap();
    assert_eq!(d.item_path, "Runtime::new");
    assert_eq!(d.item_name, "new");
    assert_eq!(d.resolved_item_path.as_deref(), Some("runtime::Runtime::new"));
    assert_eq!(d.markdown, "Creates a runtime.");
    assert!(!d.truncated);
    assert_eq!(d.title, "Runtime in tokio::runtime");
}

#[test]
fn anchor_miss_asks_members_before_the_catalog() {
    let rec = Recovery::begin(member_ctx(true, false), base());
    let (rec, req) = next(rec.step(RecoveryEvent::Begin));
    match req {
        RecoveryRequest::MemberNames { parent_path, resolved } => {
            assert_eq!(parent_path, "Runtime");
            assert!(!resolved);
        }
        other => panic!("unexpected {other:?}"),
    }
    let names = vec![Suggestion::new("Runtime::new", "method")];
    let e = done(rec.step(RecoveryEvent::MemberNames(names))).unwrap_err();
    assert_eq!(e.kind(), ErrorKind::NotFound);
    assert_eq!(e.suggestions().unwrap().len(), 1);
    assert_eq!(e.suggestions().unwrap()[0].path, "Runtime::new");
}

#[test]
fn catalog_failure_keeps_the_original_miss() {
    let rec = Recovery::begin(member_ctx(false, true), base());
    let (rec, _) = next(rec.step(RecoveryEvent::Begin));
    let e = done(rec.step(RecoveryEvent::CatalogFailed)).unwrap_err();
    assert_eq!(e.detail(), &ErrorDetail::AssocParentPageNotFound);
    assert!(e.suggestions().is_none());
}

#[test]
fn catalog_failure_after_anchor_miss_offers_members() {
    let rec = Recovery::begin(member_ctx(true, false), base());
    let (rec, _) = next(rec.step(RecoveryEvent::Begin));
    let (rec, req) = next(rec.step(RecoveryEvent::MemberNames(vec![])));
    assert!(matches!(req, RecoveryRequest::QueryCatalog { .. }));
    let (rec, req) = next(rec.step(RecoveryEvent::CatalogFailed));
    match req {
        RecoveryRequest::MemberNames { parent_path, resolved } => {
            assert_eq!(parent_path, "Runtime");
            assert!(!resolved);
        }
        other => panic!("unexpected {other:?}"),
    }
    let e = done(rec.step(RecoveryEvent::MemberNames(vec![]))).unwrap_err();
    assert_eq!(e.message(), base().message());
    assert!(e.suggestions().is_none());
}

#[test]
fn no_unique_parent_ranks_suggestions() {
    let rec = Recovery::begin(member_ctx(false, true), base());
    let (rec, _) = next(rec.step(RecoveryEvent::Begin));
    let (rec, req) = next(rec.step(RecoveryEvent::CatalogAnswer(None)));
    match req {
        RecoveryRequest::WidenAndRank { leaf, kind } => {
            assert_eq!(leaf, "Runtime");
            assert_eq!(kind, None);
        }
        other => panic!("unexpected {other:?}"),
    }
    let e = done(rec.step(RecoveryEvent::Ranked(vec![]))).unwrap_err();
    assert_eq!(e.suggestions().unwrap().len(), 0);
    assert!(e.message().contains("suggestions: (none)"));
}

#[test]
fn member_missing_under_the_resolved_parent_offers_its_members() {
    let rec = Recovery::begin(member_ctx(false, false), base());
    let (rec, _) = next(rec.step(RecoveryEvent::Begin));
    let (rec, _) = next(rec.step(RecoveryEvent::CatalogAnswer(Some("runtime::Runtime".to_string()))));
    let miss = AppError::of(ErrorDetail::AssocAnchorMissing { anchors: "method.nw".to_string() });
    let (rec, req) = next(rec.step(RecoveryEvent::FetchFailed { error: miss, anchor_miss: true }));
    match req {
        RecoveryRequest::MemberNames { parent_path, resolved } => {
            assert_eq!(parent_path, "runtime::Runtime");
            assert!(resolved);
        }
        other => panic!("unexpected {other:?}"),
    }
    let names = vec![Suggestion::new("runtime::Runtime::new", "method")];
    let e = done(rec.step(RecoveryEvent::MemberNames(names))).unwrap_err();
    match e.detail() {
        ErrorDetail::WithSuggestions { base, suggestions } => {
            assert!(matches!(**base, ErrorDetail::AssocAnchorMissing { .. }));
            assert_eq!(suggestions.len(), 1);
        }
        other => panic!("unexpected {other:?}"),
    }
}

#[test]
fn other_failures_of_the_resolved_fetch_are_the_answer() {
    let rec = Recovery::begin(member_ctx(false, false), base());
    let (rec, _) = next(rec.step(RecoveryEvent::Begin));
    let (rec, _) = next(rec.step(RecoveryEvent::CatalogAnswer(Some("runtime::Runtime".to_string()))));
    let e = done(rec.step(RecoveryEvent::FetchFailed { error: AppError::of(ErrorDetail::OutputOverBudget), anchor_miss: false }))
        .unwrap_err();
    assert_eq!(e.detail(), &ErrorDetail::OutputOverBudget);
}

#[test]
fn free_item_resolves_its_canonical_path() {
    let s = segs(&["Builder"]);
    let ctx = RecoveryContext::new(false, false, false, ItemKind::Struct, "Builder", &s, &s, Config::default());
    let rec = Recovery::begin(ctx, base());
    let (rec, req) = next(rec.step(RecoveryEvent::Begin));
    match req {
        RecoveryRequest::QueryCatalog { query, kind } => {
            assert_eq!(query.as_str(), "Builder");
            assert_eq!(kind, Some(ItemKind::Struct));
        }
        other => panic!("unexpected {other:?}"),
    }
    let (rec, req) = next(rec.step(RecoveryEvent::CatalogAnswer(Some("runtime::Builder".to_string()))));
    match req {
        RecoveryRequest::FetchPath { segments } => assert_eq!(segments, vec!["runtime", "Builder"]),
        other => panic!("unexpected {other:?}"),
    }
    let d = done(rec.step(RecoveryEvent::Fetched(page("Builds runtimes.")))).unwrap();
    assert_eq!(d.item_path, "Builder");
    assert_eq!(d.item_name, "Builder");
    assert_eq!(d.resolved_item_path.as_deref(), Some("runtime::Builder"));
}

#[test]
fn free_item_failures() {
    let ctx = RecoveryContext::new(false, true, true, ItemKind::Struct, "Buildr", &segs(&["Buildr"]), &[], Config::default());
    let rec = Recovery::begin(ctx, base());
    let (rec, _) = next(rec.step(RecoveryEvent::Begin));
    let e = done(rec.step(RecoveryEvent::CatalogFailed)).unwrap_err();
    assert_eq!(e.detail(), &ErrorDetail::AssocParentPageNotFound);

    let ctx = RecoveryContext::new(false, false, false, ItemKind::Struct, "Buildr", &segs(&["Buildr"]), &[], Config::default());
    let rec = Recovery::begin(ctx, base());
    let (rec, _) = next(rec.step(RecoveryEvent::Begin));
    let (rec, req) = next(rec.step(RecoveryEvent::CatalogAnswer(None)));
    match req {
        RecoveryRequest::WidenAndRank { leaf, kind } => {
            assert_eq!(leaf, "Buildr");
            assert_eq!(kind, Some(ItemKind::Struct));
        }
        other => panic!("unexpected {other:?}"),
    }
    let e = done(rec.step(RecoveryEvent::Ranked(vec![Suggestion::new("runtime::Builder", "struct")]))).unwrap_err();
    assert_eq!(e.suggestions().unwrap()[0].path, "runtime::Builder");

    let ctx = RecoveryContext::new(false, false, false, ItemKind::Struct, "x", &segs(&["x"]), &[], Config::default());
    let rec = Recovery::begin(ctx, base());
    let (rec, _) = next(rec.step(RecoveryEvent::Begin));
    let (rec, _) = next(rec.step(RecoveryEvent::CatalogAnswer(Some("a::x".to_string()))));
    let e = done(rec.step(RecoveryEvent::FetchFailed { error: AppError::of(ErrorDetail::AssocParentPageNotFound), anchor_miss: true }))
        .unwrap_err();
    assert!(e.suggestions().is_none());
}

#[test]
fn blank_leaf_ends_with_the_query_error() {
    let ctx = RecoveryContext::new(false, false, false, ItemKind::Struct, "  ", &[], &[], Config::default());
    let rec = Recovery::begin(ctx, base());
    let e = done(rec.step(RecoveryEvent::Begin)).unwrap_err();
    assert_eq!(e.kind(), ErrorKind::InvalidInput);
}

#[test]
fn resolved_page_is_cut_to_the_budget() {
    let mut cfg = Config::default();
    cfg.max_output_bytes = 4;
    let s = segs(&["Runtime", "new"]);
    let ctx = RecoveryContext::new(true, false, false, ItemKind::Fn, "Runtime::new", &s, &s, cfg);
    let rec = Recovery::begin(ctx, base());
    let (rec, _) = next(rec.step(RecoveryEvent::Begin));
    let (rec, _) = next(rec.step(RecoveryEvent::CatalogAnswer(Some("runtime::Runtime".to_string()))));
    let d = done(rec.step(RecoveryEvent::Fetched(page("Creates a runtime.")))).unwrap();
    assert!(d.truncated);
    assert!(d.markdown.len() <= 4);
}

#[test]
fn canonical_paths_split_on_double_colons() {
    assert_eq!(split_path_segments("runtime::Builder"), vec!["runtime", "Builder"]);
    assert_eq!(split_path_segments("::a::::b::"), vec!["a", "b"]);
    assert_eq!(split_path_segments("a:b"), vec!["a:b"]);
    assert!(split_path_segments("").is_empty());
}

#[test]
fn longest_recovery_makes_four_requests() {
    let mut requests = 0;
    let rec = Recovery::begin(member_ctx(true, false), base());
    let (rec, _) = next(rec.step(RecoveryEvent::Begin));
    requests += 1;
    let (rec, _) = next(rec.step(RecoveryEvent::MemberNames(vec![])));
    requests += 1;
    let (rec, _) = next(rec.step(RecoveryEvent::CatalogAnswer(Some("runtime::Runtime".to_string()))));
    requests += 1;
    let miss = AppError::of(ErrorDetail::AssocAnchorMissing { anchors: "method.nw".to_string() });
    let (rec, _) = next(rec.step(RecoveryEvent::FetchFailed { error: miss, anchor_miss: false }));
    requests += 1;
    let e = done(rec.step(RecoveryEvent::MemberNames(vec![]))).unwrap_err();
    assert_eq!(requests, 4);
    assert!(matches!(e.detail(), ErrorDetail::AssocAnchorMissing { .. }));
}

#[test]
fn empty_catalog_is_widened_unless_widening_fails() {
    let hit = |n: &str| SearchInCrateHit { name: n.to_string(), kind: "struct".to_string(), url: format!("https://docs.rs/x/{n}") };
    assert_eq!(widened_hits(vec![hit("Runtime")], None).len(), 1);
    assert_eq!(widened_hits(vec![hit("Runtime")], Some(Ok(vec![hit("A"), hit("B")])))[0].name, "Runtime");
    let w = widened_hits(vec![], Some(Ok(vec![hit("Runtime"), hit("Handle")])));
    assert_eq!(w.len(), 2);
    assert!(widened_hits(vec![], Some(Err(AppError::of(ErrorDetail::OutputOverBudget)))).is_empty());
    assert!(widened_hits(vec![], None).is_empty());
}
