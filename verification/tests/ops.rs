use docsrs_cli::domain::MatchMode;
use docsrs_cli::error::{ErrorDetail, ErrorKind};
use docsrs_cli::item_kind::ItemKind;
use docsrs_cli::ops::coords::resolve_crate_coords;
use docsrs_cli::ops::get_item::get_item_args;
use docsrs_cli::ops::search_crates::page_token_carries_query;
use docsrs_cli::ops::search_in_crate::{kind_filter, search_in_crate_args};

#[test]
fn coords_take_the_at_version() {
    let (n, v) = resolve_crate_coords(" serde@1.0.200 ", None).unwrap();
    assert_eq!(n.as_str(), "serde");
    assert_eq!(v.as_str(), "1.0.200");
}

#[test]
fn coords_default_to_latest() {
    let (n, v) = resolve_crate_coords("serde", None).unwrap();
    assert_eq!(n.as_str(), "serde");
    assert_eq!(v.as_str(), "latest");
    let (_, v) = resolve_crate_coords("serde", Some("   ")).unwrap();
    assert_eq!(v.as_str(), "latest");
}

#[test]
fn coords_take_the_flag_alone() {
    let (_, v) = resolve_crate_coords("tokio", Some(" 1.38.0 ")).unwrap();
    assert_eq!(v.as_str(), "1.38.0");
}

#[test]
fn coords_reject_conflicting_versions() {
    let e = resolve_crate_coords("serde@1.0.0", Some("1.0.1")).unwrap_err();
    assert_eq!(e.kind(), ErrorKind::InvalidInput);
    assert_eq!(e.message(), "conflicting versions: crate@1.0.0 vs --crate-version 1.0.1");
    let (_, v) = resolve_crate_coords("serde@1.0.0", Some("1.0.0")).unwrap();
    assert_eq!(v.as_str(), "1.0.0");
}

#[test]
fn coords_reject_a_bad_reference_before_the_flag() {
    let e = resolve_crate_coords("  ", Some("not-a-version")).unwrap_err();
    assert_eq!(e.message(), "crate name is empty");
    let e = resolve_crate_coords("serde@", None).unwrap_err();
    assert_eq!(e.message(), "version is empty after '@'");
}

#[test]
fn kind_filter_cases() {
    assert_eq!(kind_filter(None).unwrap(), None);
    assert_eq!(kind_filter(Some("")).unwrap(), None);
    assert_eq!(kind_filter(Some(" Struct ")).unwrap(), Some(ItemKind::Struct));
    assert_eq!(kind_filter(Some("method")).unwrap(), Some(ItemKind::Fn));
    let e = kind_filter(Some("mod")).unwrap_err();
    assert_eq!(e.detail(), &ErrorDetail::ModuleFilterUnsupported);
    assert_eq!(e.kind(), ErrorKind::InvalidInput);
    let e = kind_filter(Some("widget")).unwrap_err();
    assert!(matches!(e.detail(), ErrorDetail::UnknownItemType { value } if value == "widget"));
    let e = kind_filter(Some(" ")).unwrap_err();
    assert!(matches!(e.detail(), ErrorDetail::UnknownItemType { value } if value.is_empty()));
}

#[test]
fn search_in_crate_args_clamp_the_limit() {
    let a = search_in_crate_args("tokio", "", None, None, 5000, "prefix", 1000).unwrap();
    assert_eq!(a.crate_name.as_str(), "tokio");
    assert_eq!(a.version.as_str(), "latest");
    assert_eq!(a.query.as_str(), "");
    assert_eq!(a.kind_filter, None);
    assert_eq!(a.match_mode, MatchMode::Prefix);
    assert_eq!(a.limit, 1000);
    let a = search_in_crate_args("tokio@1.0.0", " spawn ", None, Some("fn"), 7, "exact", 1000).unwrap();
    assert_eq!(a.version.as_str(), "1.0.0");
    assert_eq!(a.query.as_str(), "spawn");
    assert_eq!(a.kind_filter, Some(ItemKind::Fn));
    assert_eq!(a.match_mode, MatchMode::Exact);
    assert_eq!(a.limit, 7);
}

#[test]
fn search_in_crate_args_check_in_order() {
    let e = search_in_crate_args("Bad Name", "x", None, Some("mod"), 1, "fuzzy", 10).unwrap_err();
    assert_eq!(e.kind(), ErrorKind::InvalidInput);
    assert_eq!(e.message(), "invalid crate name 'Bad Name'");
    let e = search_in_crate_args("tokio", "x", None, Some("mod"), 1, "fuzzy", 10).unwrap_err();
    assert_eq!(e.detail(), &ErrorDetail::ModuleFilterUnsupported);
    let e = search_in_crate_args("tokio", "x", None, None, 1, " Fuzzy ", 10).unwrap_err();
    assert_eq!(e.message(), "unknown match mode 'fuzzy' (expected exact|prefix|substring)");
}

#[test]
fn get_item_args_resolve_every_part() {
    let a = get_item_args("tokio", "struct", "tokio::runtime::Runtime", None).unwrap();
    assert_eq!(a.crate_name.as_str(), "tokio");
    assert_eq!(a.version.as_str(), "latest");
    assert_eq!(a.kind, ItemKind::Struct);
    assert_eq!(a.kind_echo, "struct");
    assert_eq!(a.item_path.segments(), ["tokio", "runtime", "Runtime"]);
    assert!(!a.crate_prefix_differs);
    let a = get_item_args("tokio", "method", "Runtime/new", Some("1.38.0")).unwrap();
    assert_eq!(a.kind, ItemKind::Fn);
    assert_eq!(a.kind_echo, "method");
    assert_eq!(a.version.as_str(), "1.38.0");
    assert_eq!(a.item_path.segments(), ["Runtime", "new"]);
    assert_eq!(a.item_path.as_str(), "Runtime/new");
}

#[test]
fn get_item_args_note_a_foreign_crate_prefix() {
    let a = get_item_args("tokio", "mod", "tokio-util::codec", None).unwrap();
    assert_eq!(a.kind, ItemKind::Module);
    assert!(a.crate_prefix_differs);
    let a = get_item_args("serde-json", "fn", "serde_json::from_str", None).unwrap();
    assert!(!a.crate_prefix_differs);
}

#[test]
fn get_item_args_errors() {
    let e = get_item_args("tokio", "widget", "x", None).unwrap_err();
    assert!(matches!(e.detail(), ErrorDetail::UnknownItemType { value } if value == "widget"));
    let e = get_item_args("tokio", "struct", "  ", None).unwrap_err();
    assert_eq!(e.message(), "item path is empty");
    let e = get_item_args("", "widget", "", None).unwrap_err();
    assert_eq!(e.message(), "crate name is empty");
}

#[test]
fn page_token_query_detection() {
    assert!(page_token_carries_query(Some("?q=serde&page=2")));
    assert!(page_token_carries_query(Some("  ??per_page=10")));
    assert!(!page_token_carries_query(Some("?page")));
    assert!(!page_token_carries_query(None));
}

#[test]
fn match_scores_nest_ignore_case_and_stay_in_range() {
    let n = "tokio::runtime::Runtime";
    assert_eq!(MatchMode::Prefix.score(n, "run"), Some(1));
    assert_eq!(MatchMode::Exact.score(n, "run"), None);
    assert_eq!(MatchMode::Substring.score(n, "time"), Some(3));
    assert_eq!(MatchMode::Exact.score(n, "RUNTIME"), Some(0));
    assert_eq!(MatchMode::Exact.score("TOKIO::RUNTIME::RUNTIME", "runtime"), Some(0));
    assert_eq!(MatchMode::Exact.score(n, "tokio::runtime::runtime"), Some(1));
    for m in [MatchMode::Exact, MatchMode::Prefix, MatchMode::Substring] {
        assert_eq!(m.score(n, "  "), Some(0));
    }
}
