//! Output-channel decisions: agent (JSON) mode from argv, and stdout failures.

use vstd::prelude::*;

use crate::error::app_error::{io_error_text, AppError};
use crate::error::detail::ErrorDetail;
use crate::error::kind::ErrorKind;
use crate::error::vocab::{os_error_kind, InternalOp, OsErrorKind};
use crate::text::{chars_of, contains, eq_str, opt_str, starts_with, str_contains, str_starts_with};

verus! {

/// A `--format` value that asks for human output.
pub open spec fn human_format_value(v: Seq<char>) -> bool {
    v == "text"@ || v == "markdown"@ || v == "md"@
}

/// A `--format=...` argument that asks for human output.
pub open spec fn human_format_arg(s: Seq<char>) -> bool {
    starts_with(s, "--format="@) && (contains(s, "text"@) || contains(s, "markdown"@) || contains(
        s,
        "md"@,
    ))
}

/// Views of argv entries (`None` for one that is not UTF-8).
pub open spec fn args_view(args: Seq<Option<&str>>) -> Seq<Option<Seq<char>>> {
    args.map_values(|a: Option<&str>| opt_str(a))
}

/// Whether argv asks for JSON before the full parse: `--json` wins, then a
/// human `--format` (as a pair or as `--format=...`), else JSON exactly when
/// stdout is not a terminal.
pub open spec fn wants_json(args: Seq<Option<Seq<char>>>, stdout_is_terminal: bool) -> bool {
    let has_json = exists|i: int| 0 <= i < args.len() && #[trigger] args[i] == Some("--json"@);
    let has_pair = exists|i: int|
        0 <= i && i + 1 < args.len() && #[trigger] args[i] == Some("--format"@) && (args[i
            + 1] matches Some(v) && human_format_value(v));
    let has_eq = exists|i: int|
        0 <= i < args.len() && (#[trigger] args[i] matches Some(s) && human_format_arg(s));
    if has_json {
        true
    } else if has_pair || has_eq {
        false
    } else {
        !stdout_is_terminal
    }
}

/// True when argv requests JSON or stdout is not a terminal (agent mode);
/// used before the full command-line parse. `None` stands for an argument
/// that is not valid UTF-8.
pub fn argv_wants_json_mode(args: &[Option<&str>], stdout_is_terminal: bool) -> (r: bool)
    ensures
        r == wants_json(args_view(args@), stdout_is_terminal),
{
    let ghost a = args_view(args@);
    let mut has_json = false;
    let mut has_human = false;
    let mut i: usize = 0;
    while i < args.len()
        invariant
            0 <= i <= args@.len(),
            a == args_view(args@),
            has_json == exists|k: int| 0 <= k < i && #[trigger] a[k] == Some("--json"@),
            has_human == ((exists|k: int|
                0 <= k && k + 1 < args@.len() && k < i && #[trigger] a[k] == Some("--format"@) && (a[k
                    + 1] matches Some(v) && human_format_value(v))) || (exists|k: int|
                0 <= k < i && (#[trigger] a[k] matches Some(s) && human_format_arg(s)))),
        decreases args@.len() - i,
    {
        proof {
            assert(a[i as int] == opt_str(args@[i as int]));
        }
        match args[i] {
            Some(s) => {
                let v = chars_of(s);
                if eq_str(v.as_slice(), "--json") {
                    has_json = true;
                }
                if str_starts_with(v.as_slice(), "--format=") && (str_contains(v.as_slice(), "text")
                    || str_contains(v.as_slice(), "markdown") || str_contains(v.as_slice(), "md")) {
                    has_human = true;
                }
                if eq_str(v.as_slice(), "--format") && i + 1 < args.len() {
                    proof {
                        assert(a[i + 1] == opt_str(args@[i + 1]));
                    }
                    match args[i + 1] {
                        Some(n) => {
                            let w = chars_of(n);
                            if eq_str(w.as_slice(), "text") || eq_str(w.as_slice(), "markdown")
                                || eq_str(w.as_slice(), "md") {
                                has_human = true;
                            }
                        },
                        None => {},
                    }
                }
            },
            None => {},
        }
        i = i + 1;
    }
    if has_json {
        return true;
    }
    if has_human {
        return false;
    }
    !stdout_is_terminal
}

/// The error a stdout write failure of OS category `k` maps to: a closed pipe
/// is the broken-pipe outcome; anything else an internal failure that keeps
/// `text`, the cause's message, as its source.
pub fn stdout_err_of(k: OsErrorKind, text: &str) -> (r: AppError)
    ensures
        r.wf(),
        k == OsErrorKind::BrokenPipe ==> r.detail_of() == ErrorDetail::BrokenPipe
            && r.source_of() is None && r.retry_after_of() is None,
        k != OsErrorKind::BrokenPipe ==> r.detail_of() == (ErrorDetail::Internal {
            op: InternalOp::StdoutWrite,
        }) && r.source_of() == Some(text@) && r.retry_after_of() is None,
{
    match k {
        OsErrorKind::BrokenPipe => AppError::of(ErrorDetail::BrokenPipe),
        _ => AppError::of_with_source(ErrorDetail::Internal { op: InternalOp::StdoutWrite }, text),
    }
}

/// Map a stdout write failure by its OS category ([`stdout_err_of`]). The
/// category and the message are read from the opaque `std::io::Error`, so
/// which of the two outcomes comes out is not stated here.
pub fn map_stdout_err(e: std::io::Error) -> (r: AppError)
    ensures
        r.wf(),
        r.kind_of() == ErrorKind::BrokenPipe || (r.detail_of() == (ErrorDetail::Internal {
            op: InternalOp::StdoutWrite,
        }) && r.source_of() is Some),
{
    let k = os_error_kind(&e);
    let text = io_error_text(&e);
    stdout_err_of(k, text.as_str())
}

} // verus!
