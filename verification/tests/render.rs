use docsrs_cli::config::Config;
use docsrs_cli::crates_io::{CrateSearchHit, SearchCratesData, SearchMeta};
use docsrs_cli::docs_rs::{GetItemData, ReadmeData, SearchInCrateData, SearchInCrateHit};
use docsrs_cli::error::{AppError, ErrorDetail, ErrorKind, IoCause, IoOp, Suggestion};
use docsrs_cli::render::{
    apply_output_budget_search_crates, apply_output_budget_search_in_crate, apply_truncation_to_item,
    apply_truncation_to_readme, error_envelope, render_item_markdown, render_readme_markdown,
    render_search_in_crate_markdown, render_search_markdown, success_envelope, truncate_output, usage_error,
};

fn readme(markdown: &str, empty: bool) -> ReadmeData {
    ReadmeData {
        crate_name: "c".into(),
        version: "latest".into(),
        resolved_version: None,
        markdown: markdown.into(),
        empty,
        truncated: false,
        source_url: "u".into(),
        cache_hit: false,
    }
}

fn item(markdown: &str, empty: bool, title: &str) -> GetItemData {
    GetItemData {
        crate_name: "c".into(),
        item_type: "fn".into(),
        item_path: "c::f".into(),
        item_name: "f".into(),
        version: "latest".into(),
        resolved_version: None,
        markdown: markdown.into(),
        empty,
        truncated: false,
        source_url: "u".into(),
        title: title.into(),
        cache_hit: false,
        extraction: None,
        anchor_family: None,
        resolved_item_path: None,
    }
}

fn hit(name: &str, documentation: Option<String>) -> CrateSearchHit {
    CrateSearchHit {
        name: name.into(),
        description: "d".into(),
        downloads: 1,
        version: "1.0.0".into(),
        documentation,
        max_version: None,
        max_stable_version: None,
        default_version: None,
        recent_downloads: None,
        exact_match: None,
        yanked: None,
        repository: None,
        homepage: None,
    }
}

fn search(query: &str, hits: Vec<CrateSearchHit>) -> SearchCratesData {
    let total = hits.len() as u64;
    SearchCratesData {
        query: query.into(),
        page: 1,
        per_page: 10,
        sort: "relevance".into(),
        hits,
        meta: SearchMeta { total, next_page: None, prev_page: None },
        cache_hit: false,
        truncated: false,
    }
}

fn empty_in_crate() -> SearchInCrateData {
    SearchInCrateData {
        crate_name: "c".into(),
        query: String::new(),
        version: "1".into(),
        item_type: None,
        match_mode: "prefix".into(),
        total: 0,
        emitted: 0,
        hits: vec![],
        truncated: false,
        source_url: "u".into(),
        cache_hit: false,
    }
}

fn truncate_marks_flag_body() {
    let (out, trunc) = truncate_output("abcdef", 3);
    assert!(trunc);
    assert_eq!(out, "abc");
}

fn truncate_zero_and_utf8_boundary_body() {
    let (out, trunc) = truncate_output("abc", 0);
    assert!(trunc);
    assert!(out.is_empty());
    let s = "áéí";
    let (out, trunc) = truncate_output(s, 2);
    assert!(trunc);
    assert!(out.is_char_boundary(out.len()));
}

fn apply_truncation_sets_flags_body() {
    let cfg = Config { max_output_bytes: 4, ..Config::default() };
    let mut r = readme("hello world", false);
    r.version = "1".into();
    let r = apply_truncation_to_readme(r, &cfg);
    assert!(r.truncated);
    assert!(r.markdown.len() <= 4);
    let mut i = item("abcdef", false, "t");
    i.version = "1".into();
    let i = apply_truncation_to_item(i, &cfg);
    assert!(i.truncated);
    assert_eq!(i.markdown, "abcd");
}

fn cancel_kinds_body() {
    let e = error_envelope(&AppError::terminated(), "get-item", 0);
    assert_eq!(e.error.code, 143);
    assert_eq!(e.command, "get-item");
    assert_eq!(e.duration_ms, 0);
    assert_eq!(e.error.kind, "canceled");
    let e = error_envelope(&AppError::interrupted(), "get-item", 1);
    assert_eq!(e.error.code, 130);
    assert_eq!(e.error.kind, "canceled");
}

fn empty_search_markdown_body() {
    let md = render_search_markdown(&search("z", vec![]));
    assert!(md.contains("No crates found"));
}

fn empty_readme_and_item_body() {
    assert!(render_readme_markdown(&readme("", true)).contains("No documentation"));
    assert!(render_item_markdown(&item("", true, "c::f (fn)")).contains("No documentation"));
}

fn empty_search_in_crate_markdown_body() {
    let md = render_search_in_crate_markdown(&empty_in_crate());
    assert!(md.contains("all items"));
    assert!(md.contains("No matching items"));
}

#[test]
fn render_truncate_marks_flag() {
    truncate_marks_flag_body();
}

#[test]
fn render_cancel_kinds_in_envelope() {
    cancel_kinds_body();
}

#[test]
fn render_empty_search_markdown() {
    empty_search_markdown_body();
}

#[test]
fn render_empty_readme_and_item() {
    empty_readme_and_item_body();
}

#[test]
fn render_apply_truncation_sets_flags() {
    apply_truncation_sets_flags_body();
}

#[test]
fn render_truncate_zero_and_utf8_boundary() {
    truncate_zero_and_utf8_boundary_body();
}

#[test]
fn render_empty_search_in_crate_markdown() {
    empty_search_in_crate_markdown_body();
}

#[test]
fn budget_truncate_marks_flag() {
    truncate_marks_flag_body();
}

#[test]
fn budget_truncate_zero_and_utf8_boundary() {
    truncate_zero_and_utf8_boundary_body();
}

#[test]
fn budget_apply_truncation_sets_flags() {
    apply_truncation_sets_flags_body();
}

#[test]
fn envelope_cancel_kinds_in_envelope() {
    cancel_kinds_body();
}

#[test]
fn budget_error_is_not_retryable() {
    let e = AppError::of(ErrorDetail::OutputOverBudget);
    let env = error_envelope(&e, "get-item", 12);
    assert_eq!(env.command, "get-item");
    assert_eq!(env.duration_ms, 12);
    assert_eq!(env.error.kind, "budget");
    assert_eq!(env.error.code, 74);
    assert!(!env.error.retryable);
}

#[test]
fn suggestions_reach_the_wire_as_data_not_only_as_prose() {
    let e = AppError::of(ErrorDetail::WithSuggestions {
        base: Box::new(ErrorDetail::AssocAnchorMissing { anchors: "method.unwrp".into() }),
        suggestions: vec![
            Suggestion::new("option::Option::unwrap", "method"),
            Suggestion::new("option::Option::unzip", "method"),
        ],
    });
    let env = error_envelope(&e, "get-item", 3);
    let got = env.error.suggestions.as_deref().expect("suggestions field");
    assert_eq!(got.len(), 2);
    assert_eq!(got[0].path, "option::Option::unwrap");
    assert_eq!(got[0].kind, "method");
    assert!(env.error.message.contains("suggestions:"), "prose kept");
}

#[test]
fn markdown_empty_search_markdown() {
    empty_search_markdown_body();
}

#[test]
fn markdown_empty_readme_and_item() {
    empty_readme_and_item_body();
}

#[test]
fn markdown_empty_search_in_crate_markdown() {
    empty_search_in_crate_markdown_body();
}

#[test]
fn search_docs_fallback_docs_rs_url() {
    let md = render_search_markdown(&search("x", vec![hit("foo", None)]));
    assert!(md.contains("https://docs.rs/foo"));
    assert!(!md.contains("N/A"));
}

// Library-specific checks beyond the original suite.

#[test]
fn truncation_never_splits_a_scalar_and_keeps_what_fits() {
    assert_eq!(truncate_output("áéí", 2), ("á".to_string(), true));
    assert_eq!(truncate_output("áéí", 3), ("á".to_string(), true));
    assert_eq!(truncate_output("áéí", 6), ("áéí".to_string(), false));
    assert_eq!(truncate_output("", 1), (String::new(), false));
    assert_eq!(truncate_output("", 0), (String::new(), true));
    assert_eq!(truncate_output("a😀b", 4), ("a".to_string(), true));
}

#[test]
fn markdown_renderings_are_exact() {
    let md = render_search_markdown(&search("q", vec![hit("foo", Some("https://d.example/foo".into())), hit("bar", Some(String::new()))]));
    assert_eq!(
        md,
        "# Crate Search Results for \"q\" (page 1)\n\n## foo (1.0.0)\n\n**Description:** d\n\n**Downloads:** 1\n\n**Documentation:** https://d.example/foo\n\n---\n\n## bar (1.0.0)\n\n**Description:** d\n\n**Downloads:** 1\n\n**Documentation:** https://docs.rs/bar\n\n---\n\n"
    );
    assert_eq!(render_readme_markdown(&readme("body", false)), "# c Documentation\n\nbody\n");
    assert_eq!(render_item_markdown(&item("m", false, "T")), "# T\n\n**Documentation URL:** u\n\nm\n");
    let mut d = empty_in_crate();
    d.query = "spawn".into();
    d.total = 3;
    d.emitted = 1;
    d.hits = vec![SearchInCrateHit { name: "task::spawn".into(), kind: "fn".into(), url: "https://docs.rs/x".into() }];
    assert_eq!(
        render_search_in_crate_markdown(&d),
        "# Search Results for \"spawn\" in c\n\nFound 3 items (emitted 1)\n\n## task::spawn (fn)\n\n**Link:** https://docs.rs/x\n\n---\n\n"
    );
}

#[test]
fn envelopes_carry_their_fields() {
    let s = success_envelope("version", 7u32, 3, Some("https://x"));
    assert!(s.ok);
    assert_eq!(s.command, "version");
    assert_eq!(s.data, 7);
    assert_eq!(s.source_url, Some("https://x"));
    let u = usage_error("bad flag");
    assert_eq!(u.kind(), ErrorKind::Usage);
    assert_eq!(u.message(), "bad flag");
    let env = error_envelope(&AppError::broken_pipe(), "readme", 5);
    assert_eq!(env.error.kind, "broken_pipe");
    assert_eq!(env.error.code, 141);
    assert!(env.error.suggestions.is_none());
}

#[test]
fn output_budget_shrinks_hits_until_they_fit() {
    let hits: Vec<CrateSearchHit> = (0..20).map(|i| hit(&format!("crate-{i}"), None)).collect();
    let measure = |d: &SearchCratesData| Some(100 + 50 * d.hits.len() as u64);
    let budgeted = apply_output_budget_search_crates(search("crate", hits.clone()), 800, measure);
    assert!(budgeted.truncated);
    assert_eq!(budgeted.hits.len(), 14);
    assert_eq!(budgeted.hits[13].name, "crate-13");
    let all = apply_output_budget_search_crates(search("crate", hits.clone()), 100_000, measure);
    assert!(!all.truncated);
    assert_eq!(all.hits.len(), 20);
    let none = apply_output_budget_search_crates(search("crate", hits), 0, measure);
    assert!(none.truncated && none.hits.is_empty());
    let mut d = empty_in_crate();
    d.hits = (0..5).map(|i| SearchInCrateHit { name: format!("n{i}"), kind: "fn".into(), url: "u".into() }).collect();
    d.emitted = 5;
    d.total = 9;
    let shrunk = apply_output_budget_search_in_crate(d, 10, |x: &SearchInCrateData| Some(x.hits.len() as u64 * 4));
    assert_eq!(shrunk.hits.len(), 2);
    assert_eq!(shrunk.emitted, 2);
    assert_eq!(shrunk.total, 9);
    assert!(shrunk.truncated);
}

use docsrs_cli::render::schema_md::{schema_type_label, PropertyDoc, SchemaDoc, TypeField};

fn prop(type_field: TypeField, has_properties: bool, has_items: bool) -> PropertyDoc {
    PropertyDoc { name: "p".into(), type_field, has_properties, has_items, description: None }
}

#[test]
fn type_label_covers_scalar_union_and_containers() {
    assert_eq!(schema_type_label(&prop(TypeField::Text("string".into()), false, false)), "string");
    assert_eq!(
        schema_type_label(&prop(TypeField::List(vec![Some("string".into()), Some("null".into())]), false, false)),
        "string | null"
    );
    assert_eq!(schema_type_label(&prop(TypeField::Absent, true, false)), "object");
    assert_eq!(schema_type_label(&prop(TypeField::Absent, false, true)), "array");
    assert_eq!(schema_type_label(&prop(TypeField::Absent, false, false)), "any");
}

#[test]
fn markdown_lists_required_and_properties() {
    let schema = SchemaDoc {
        title: Some("demo".into()),
        description: Some("a demo schema".into()),
        required: Some(vec![Some("a".into())]),
        properties: Some(vec![
            PropertyDoc {
                name: "a".into(),
                type_field: TypeField::Text("string".into()),
                has_properties: false,
                has_items: false,
                description: Some("pipe | escaped".into()),
            },
            PropertyDoc {
                name: "b".into(),
                type_field: TypeField::Text("integer".into()),
                has_properties: false,
                has_items: false,
                description: None,
            },
        ]),
        pretty: "{}".into(),
    };
    let md = docsrs_cli::render::render_schema_markdown("demo", &schema);
    assert!(md.contains("# Schema: `demo`"));
    assert!(md.contains("**Title:** demo"));
    assert!(md.contains("| `a` | string | yes |"));
    assert!(md.contains("| `b` | integer | no |"));
    assert!(md.contains("pipe \\| escaped"), "table pipes are escaped");
    assert!(md.contains("```json"));
}

#[test]
fn markdown_without_properties_emits_placeholder_row() {
    let schema = SchemaDoc { title: None, description: None, required: None, properties: None, pretty: "{}".into() };
    let md = docsrs_cli::render::render_schema_markdown("empty", &schema);
    assert!(md.contains("_(none)_"));
    assert_eq!(
        md,
        "# Schema: `empty`\n\n**Title:** empty\n\n## Properties\n\n| property | type | required | description |\n| --- | --- | --- | --- |\n| _(none)_ | | | |\n\n## JSON Schema\n\n```json\n{}\n```\n"
    );
}

#[test]
fn transient_io_failure_is_published_as_retryable() {
    let err = AppError::of(ErrorDetail::Io { op: IoOp::Write, path: None, cause: IoCause::Transient });
    let v = error_envelope(&err, "cache-clear", 0);
    assert!(err.retryable());
    assert!(v.error.retryable);
    assert_eq!(v.error.kind, "io");
    assert_eq!(v.error.code, 74);
    let err = AppError::of(ErrorDetail::Io { op: IoOp::Write, path: None, cause: IoCause::Permanent });
    assert!(!error_envelope(&err, "cache-clear", 0).error.retryable);
}

#[test]
fn budget_keeps_a_payload_that_fits() {
    let mut d = empty_in_crate();
    d.hits = (0..3).map(|i| SearchInCrateHit { name: format!("n{i}"), kind: "fn".into(), url: "u".into() }).collect();
    d.emitted = 3;
    let kept = apply_output_budget_search_in_crate(d, 100, |x: &SearchInCrateData| Some(x.hits.len() as u64 * 4));
    assert_eq!(kept.hits.len(), 3);
    assert_eq!(kept.emitted, 3);
    assert!(!kept.truncated);
}
