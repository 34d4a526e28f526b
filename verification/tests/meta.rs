use docsrs_cli::error::ErrorKind;
use docsrs_cli::meta::{check_schema_command, command_tree_data, schema_command_names};

#[test]
fn command_tree_lists_every_command_in_order() {
    let t = command_tree_data();
    assert_eq!(t.name, "docsrs-cli");
    let names: Vec<&str> = t.commands.iter().map(|c| c.name).collect();
    assert_eq!(
        names,
        vec![
            "search-crates", "readme", "get-item", "search-in-crate", "version", "doctor", "commands",
            "schema", "completions", "cache", "config"
        ]
    );
    let cache = &t.commands[9];
    let subs: Vec<&str> = cache.subcommands.iter().map(|s| s.name).collect();
    assert_eq!(subs, vec!["path", "clear", "stats"]);
    assert_eq!(t.commands[2].args, vec!["crate_name", "item_type", "item_path", "--crate-version", "--suggest"]);
}

#[test]
fn schema_names_and_lookup() {
    let names = schema_command_names();
    assert_eq!(names.len(), 20);
    assert_eq!(names[0], "search-crates");
    assert_eq!(names[19], "config-init");
    for n in &names {
        assert!(check_schema_command(n).is_ok(), "{n}");
    }
    let e = check_schema_command("nope").unwrap_err();
    assert_eq!(e.kind(), ErrorKind::Usage);
    assert_eq!(e.message(), "unknown schema command 'nope'");
}

use docsrs_cli::domain::CrateName;
use docsrs_cli::error::{AppError, ErrorDetail, Suggestion};
use docsrs_cli::ops::{crate_prefix_mismatch, with_suggestions};
use docsrs_cli::error::{InternalOp, OsErrorKind};
use docsrs_cli::output::{argv_wants_json_mode, stdout_err_of};

#[test]
fn argv_mode_detection() {
    assert!(argv_wants_json_mode(&[Some("docsrs-cli"), Some("--json")], true));
    assert!(!argv_wants_json_mode(&[Some("docsrs-cli"), Some("--format"), Some("md")], false));
    assert!(!argv_wants_json_mode(&[Some("docsrs-cli"), Some("--format=markdown")], false));
    assert!(argv_wants_json_mode(&[Some("docsrs-cli"), Some("--format"), Some("json")], true) == false);
    assert!(argv_wants_json_mode(&[Some("docsrs-cli"), Some("--format"), Some("json")], false));
    assert!(argv_wants_json_mode(&[Some("x"), Some("--format"), Some("text"), Some("--json")], true));
    assert!(argv_wants_json_mode(&[Some("x"), None, Some("--format")], false));
    assert!(!argv_wants_json_mode(&[Some("x")], true));
}

#[test]
fn suggestions_wrap_only_when_asked_or_found() {
    let base = AppError::of(ErrorDetail::AssocParentPageNotFound);
    let same = with_suggestions(base.clone(), &[], false);
    assert_eq!(same.message(), base.message());
    assert!(same.suggestions().is_none());
    let asked = with_suggestions(base.clone(), &[], true);
    assert!(asked.message().contains("suggestions: (none)"));
    let found = with_suggestions(base, &[Suggestion::new("a::B", "struct")], false);
    assert_eq!(found.suggestions().unwrap().len(), 1);
    assert_eq!(found.kind(), docsrs_cli::error::ErrorKind::NotFound);
}

#[test]
fn crate_prefix_mismatch_is_advisory() {
    let tokio = CrateName::parse("async-trait").unwrap();
    assert!(!crate_prefix_mismatch(&tokio, &["async_trait".to_string()]));
    assert!(!crate_prefix_mismatch(&tokio, &["async-trait".to_string()]));
    assert!(crate_prefix_mismatch(&tokio, &["serde_json".to_string()]));
    assert!(!crate_prefix_mismatch(&tokio, &["Runtime".to_string()]));
    assert!(!crate_prefix_mismatch(&tokio, &[]));
}

#[test]
fn stdout_failures_map_by_category() {
    let e = stdout_err_of(OsErrorKind::BrokenPipe, "pipe closed");
    assert_eq!(e.kind(), ErrorKind::BrokenPipe);
    assert_eq!(e.detail(), &ErrorDetail::BrokenPipe);
    let e = stdout_err_of(OsErrorKind::StorageFull, "no space left");
    assert_eq!(e.detail(), &ErrorDetail::Internal { op: InternalOp::StdoutWrite });
    assert_eq!(e.source(), Some("no space left"));
}
