//! The local `cache` and `config` commands: the refusal of destructive verbs
//! on a target the caller never named, and the human output lines.
//!
//! A verb with a side effect designates its subject in argv and never
//! inherits it from the environment: the target flag names it, or the waiver
//! flag explicitly accepts the ambient one. With neither, nothing is touched.

use vstd::prelude::*;

use crate::error::app_error::AppError;
use crate::error::detail::ErrorDetail;
use crate::error::vocab::DestructiveEffect;
use crate::text::{dec, push_dec, push_str};

verus! {

/// A destructive verb must refuse: its target was not named in argv and the
/// waiver was not given.
pub open spec fn refuses(waived: bool, target_from_argv: bool) -> bool {
    !waived && !target_from_argv
}

/// Whether a destructive verb must refuse to act on its resolved target.
pub fn must_refuse_ambient(waived: bool, target_from_argv: bool) -> (r: bool)
    ensures
        r == refuses(waived, target_from_argv),
{
    !waived && !target_from_argv
}

/// Whether `config init` must refuse: only `--force` destroys, and then the
/// waiver is demanded whenever the target directory is ambient, whether or
/// not a file exists there yet.
pub fn config_init_must_refuse(force: bool, waived: bool, target_from_argv: bool) -> (r: bool)
    ensures
        r == (force && refuses(waived, target_from_argv)),
{
    force && must_refuse_ambient(waived, target_from_argv)
}

/// The refusal of `verb` on the ambient `target`: names the flag that would
/// designate it and the flag that would accept it, and what would have
/// happened to it.
pub fn ambient_refusal(
    verb: &str,
    target: &str,
    target_flag: &str,
    waiver_flag: &str,
    effect: DestructiveEffect,
) -> (r: AppError)
    ensures
        r.wf(),
        r.detail_of() matches ErrorDetail::AmbientTargetRefused {
            verb: v,
            target: t,
            target_flag: f,
            waiver_flag: w,
            effect: x,
        } && v@ == verb@ && t@ == target@ && f@ == target_flag@ && w@ == waiver_flag@ && x
            == effect,
{
    AppError::of(
        ErrorDetail::AmbientTargetRefused {
            verb: verb.to_owned(),
            target: target.to_owned(),
            target_flag: target_flag.to_owned(),
            waiver_flag: waiver_flag.to_owned(),
            effect,
        },
    )
}

/// `true` or `false`, as `Display` prints a `bool`.
pub open spec fn bool_text(b: bool) -> Seq<char> {
    if b {
        "true"@
    } else {
        "false"@
    }
}

/// A resolved path, or `<unresolved>`.
pub open spec fn path_text(p: Option<Seq<char>>) -> Seq<char> {
    match p {
        Some(s) => s,
        None => "<unresolved>"@,
    }
}

fn push_bool(s: &mut String, b: bool)
    ensures
        final(s)@ == old(s)@ + bool_text(b),
{
    if b {
        push_str(s, "true");
    } else {
        push_str(s, "false");
    }
}

fn push_path(s: &mut String, p: Option<&str>)
    ensures
        final(s)@ == old(s)@ + path_text(crate::text::opt_str(p)),
{
    match p {
        Some(x) => push_str(s, x),
        None => push_str(s, "<unresolved>"),
    }
}

/// `cache path` line: the cache root, the layer it came from, and whether
/// caching is off.
pub fn cache_path_line(root: Option<&str>, source: &str, no_cache: bool) -> (r: String)
    ensures
        r@ == "cache_root="@ + path_text(crate::text::opt_str(root)) + " source="@ + source@
            + " no_cache="@ + bool_text(no_cache),
{
    let mut s = String::new();
    push_str(&mut s, "cache_root=");
    push_path(&mut s, root);
    push_str(&mut s, " source=");
    push_str(&mut s, source);
    push_str(&mut s, " no_cache=");
    push_bool(&mut s, no_cache);
    s
}

/// `cache clear` line: what was removed, from where, and the layer that
/// named the root.
pub fn cache_clear_line(removed_entries: u64, freed_bytes: u64, root: &str, target_source: &str) -> (r: String)
    ensures
        r@ == "cache cleared: "@ + dec(removed_entries as nat) + " entries, "@ + dec(
            freed_bytes as nat,
        ) + " bytes freed ("@ + root@ + ") target_source="@ + target_source@,
{
    let mut s = String::new();
    push_str(&mut s, "cache cleared: ");
    push_dec(&mut s, removed_entries);
    push_str(&mut s, " entries, ");
    push_dec(&mut s, freed_bytes);
    push_str(&mut s, " bytes freed (");
    push_str(&mut s, root);
    push_str(&mut s, ") target_source=");
    push_str(&mut s, target_source);
    s
}

/// A byte budget: `unlimited` when zero, else the count with a `B` suffix.
pub open spec fn budget_text(max_bytes: u64) -> Seq<char> {
    if max_bytes == 0 {
        "unlimited"@
    } else {
        dec(max_bytes as nat) + "B"@
    }
}

/// `cache stats` line.
pub fn cache_stats_line(
    root: &str,
    layout: &str,
    entries: u64,
    total_bytes: u64,
    max_bytes: u64,
    ttl_secs: u64,
    parser_version: &str,
) -> (r: String)
    ensures
        r@ == "cache root="@ + root@ + " layout="@ + layout@ + " entries="@ + dec(entries as nat)
            + " used="@ + dec(total_bytes as nat) + "B max="@ + budget_text(max_bytes)
            + " ttl="@ + dec(ttl_secs as nat) + "s parser="@ + parser_version@,
{
    let mut s = String::new();
    push_str(&mut s, "cache root=");
    push_str(&mut s, root);
    push_str(&mut s, " layout=");
    push_str(&mut s, layout);
    push_str(&mut s, " entries=");
    push_dec(&mut s, entries);
    push_str(&mut s, " used=");
    push_dec(&mut s, total_bytes);
    push_str(&mut s, "B max=");
    if max_bytes == 0 {
        push_str(&mut s, "unlimited");
    } else {
        push_dec(&mut s, max_bytes);
        push_str(&mut s, "B");
    }
    push_str(&mut s, " ttl=");
    push_dec(&mut s, ttl_secs);
    push_str(&mut s, "s parser=");
    push_str(&mut s, parser_version);
    s
}

/// What `config path` reports.
pub struct ConfigPathReport<'a> {
    /// Resolved config directory.
    pub config_dir: Option<&'a str>,
    /// Layer that named it.
    pub config_source: &'a str,
    /// Resolved `config.toml` path.
    pub config_file: Option<&'a str>,
    /// The file exists.
    pub config_file_exists: bool,
    /// The file was loaded.
    pub config_toml_loaded: bool,
    /// Resolved cache directory.
    pub cache_dir: Option<&'a str>,
    /// Layer that named it.
    pub cache_source: &'a str,
    /// Whether a `.env` is read at run time.
    pub dotenv_runtime: bool,
    /// Secret-bearing layers.
    pub secrets_layers: &'a str,
}

/// The four `config path` lines, each ending in a newline.
pub fn config_path_lines(d: &ConfigPathReport) -> (r: String)
    ensures
        r@ == "config_dir="@ + path_text(crate::text::opt_str(d.config_dir)) + " source="@
            + d.config_source@ + "\n"@ + "config_file="@ + path_text(
            crate::text::opt_str(d.config_file),
        ) + " exists="@ + bool_text(d.config_file_exists) + " loaded="@ + bool_text(
            d.config_toml_loaded,
        ) + "\n"@ + "cache_dir="@ + path_text(crate::text::opt_str(d.cache_dir)) + " source="@
            + d.cache_source@ + "\n"@ + "dotenv_runtime="@ + bool_text(d.dotenv_runtime)
            + " secrets="@ + d.secrets_layers@ + "\n"@,
{
    let mut s = String::new();
    push_str(&mut s, "config_dir=");
    push_path(&mut s, d.config_dir);
    push_str(&mut s, " source=");
    push_str(&mut s, d.config_source);
    push_str(&mut s, "\n");
    push_str(&mut s, "config_file=");
    push_path(&mut s, d.config_file);
    push_str(&mut s, " exists=");
    push_bool(&mut s, d.config_file_exists);
    push_str(&mut s, " loaded=");
    push_bool(&mut s, d.config_toml_loaded);
    push_str(&mut s, "\n");
    push_str(&mut s, "cache_dir=");
    push_path(&mut s, d.cache_dir);
    push_str(&mut s, " source=");
    push_str(&mut s, d.cache_source);
    push_str(&mut s, "\n");
    push_str(&mut s, "dotenv_runtime=");
    push_bool(&mut s, d.dotenv_runtime);
    push_str(&mut s, " secrets=");
    push_str(&mut s, d.secrets_layers);
    push_str(&mut s, "\n");
    s
}

/// `config init` line: whether the file was overwritten or created, where,
/// and the layer that named the target.
pub fn config_init_line(overwritten: bool, path: &str, target_source: &str) -> (r: String)
    ensures
        r@ == "config init: "@ + (if overwritten {
            "overwrote"@
        } else {
            "created"@
        }) + " "@ + path@ + " (target_source="@ + target_source@ + ")"@,
{
    let mut s = String::new();
    push_str(&mut s, "config init: ");
    if overwritten {
        push_str(&mut s, "overwrote");
    } else {
        push_str(&mut s, "created");
    }
    push_str(&mut s, " ");
    push_str(&mut s, path);
    push_str(&mut s, " (target_source=");
    push_str(&mut s, target_source);
    push_str(&mut s, ")");
    s
}

} // verus!
