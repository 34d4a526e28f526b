//! English renderings — the `message` field of the JSON envelope.
//!
//! Style contract: lowercase opening, no trailing period, no secrets, and never
//! the cause text (that lives on the source chain). Agents match on this
//! wording, so changing it is a compatibility decision.

use vstd::prelude::*;

use super::detail::ErrorDetail;
use super::suggestion::{join_suggestions, suggestions_text};
use super::vocab::{
    AllowlistStage, ContentKind, DestructiveEffect, InternalOp, IoCause, IoOp, Subject,
};
use crate::text::{dec, push_dec, push_str};

verus! {

/// Sentinel prefix of the "anchor absent on the parent page" message.
pub const ASSOC_ANCHOR_MISS: &'static str = "associated item anchor ";

/// English name of a subject inside a sentence.
pub open spec fn subject_en(s: Subject) -> Seq<char> {
    match s {
        Subject::CrateName => "crate name"@,
        Subject::CrateRef => "crate reference"@,
        Subject::SearchQuery => "search query"@,
        Subject::ItemPath => "item path"@,
        Subject::ItemPathSegment => "item path segment"@,
        Subject::Version => "version"@,
        Subject::PageToken => "page-token"@,
        Subject::UserAgent => "user-agent"@,
        Subject::Contact => "contact"@,
        Subject::Origin => "origin URL"@,
        Subject::Timeout => "timeout"@,
        Subject::ConnectTimeout => "connect_timeout"@,
        Subject::MaxBodyBytes => "max_body_bytes"@,
        Subject::MaxOutputBytes => "max_output_bytes"@,
        Subject::ConfigFile => "config.toml"@,
        Subject::LogDirective => "log_directive"@,
    }
}

impl Subject {
    /// English name used inside a rendered sentence.
    pub fn en(self) -> (r: &'static str)
        ensures
            r@ == subject_en(self),
    {
        match self {
            Self::CrateName => "crate name",
            Self::CrateRef => "crate reference",
            Self::SearchQuery => "search query",
            Self::ItemPath => "item path",
            Self::ItemPathSegment => "item path segment",
            Self::Version => "version",
            Self::PageToken => "page-token",
            Self::UserAgent => "user-agent",
            Self::Contact => "contact",
            Self::Origin => "origin URL",
            Self::Timeout => "timeout",
            Self::ConnectTimeout => "connect_timeout",
            Self::MaxBodyBytes => "max_body_bytes",
            Self::MaxOutputBytes => "max_output_bytes",
            Self::ConfigFile => "config.toml",
            Self::LogDirective => "log_directive",
        }
    }
}

/// English verb phrase of a filesystem operation.
pub open spec fn io_op_en(op: IoOp) -> Seq<char> {
    match op {
        IoOp::Read => "read"@,
        IoOp::Write => "write"@,
        IoOp::CreateDir => "create directory"@,
        IoOp::CreateTemp => "create temporary file"@,
        IoOp::Rename => "rename"@,
        IoOp::Sync => "sync"@,
        IoOp::Install => "install"@,
        IoOp::OpenLock => "open lock file"@,
        IoOp::Lock => "acquire exclusive lock"@,
        IoOp::ReadDir => "list directory"@,
        IoOp::Remove => "remove"@,
    }
}

impl IoOp {
    /// English verb phrase of this operation.
    pub fn en(self) -> (r: &'static str)
        ensures
            r@ == io_op_en(self),
    {
        match self {
            Self::Read => "read",
            Self::Write => "write",
            Self::CreateDir => "create directory",
            Self::CreateTemp => "create temporary file",
            Self::Rename => "rename",
            Self::Sync => "sync",
            Self::Install => "install",
            Self::OpenLock => "open lock file",
            Self::Lock => "acquire exclusive lock",
            Self::ReadDir => "list directory",
            Self::Remove => "remove",
        }
    }
}

/// English sentence of an internal failure.
pub open spec fn internal_op_en(op: InternalOp) -> Seq<char> {
    match op {
        InternalOp::JsonSerialize => "json serialize failed"@,
        InternalOp::JsonPrettyPrint => "json pretty-print failed"@,
        InternalOp::StdoutWrite => "stdout write failed"@,
        InternalOp::EmbeddedSchemaInvalid => "embedded schema is invalid JSON"@,
        InternalOp::UrlBuild => "built an invalid URL"@,
        InternalOp::SemaphoreClosed => "concurrency semaphore closed"@,
        InternalOp::WorkerJoin => "cpu worker join failed"@,
        InternalOp::WorkerPanic => "cpu worker panicked during parse"@,
        InternalOp::ClockBeforeEpoch => "system clock before UNIX epoch"@,
        InternalOp::CacheKeyMalformed => "cache key is not valid sha256 hex (internal invariant broken)"@,
        InternalOp::AssocPathTooShort => "associated item path invariant broken: expected at least 2 segments"@,
        InternalOp::AssocParentOwnsNoPage => "associated-item parent kind owns no rustdoc page"@,
        InternalOp::AllowedOriginUnparseable => "allowed origin is not a valid URL"@,
        InternalOp::SyntheticParseFailure => "synthetic parse failure"@,
    }
}

impl InternalOp {
    /// English sentence of this internal failure.
    pub fn en(self) -> (r: &'static str)
        ensures
            r@ == internal_op_en(self),
    {
        match self {
            Self::JsonSerialize => "json serialize failed",
            Self::JsonPrettyPrint => "json pretty-print failed",
            Self::StdoutWrite => "stdout write failed",
            Self::EmbeddedSchemaInvalid => "embedded schema is invalid JSON",
            Self::UrlBuild => "built an invalid URL",
            Self::SemaphoreClosed => "concurrency semaphore closed",
            Self::WorkerJoin => "cpu worker join failed",
            Self::WorkerPanic => "cpu worker panicked during parse",
            Self::ClockBeforeEpoch => "system clock before UNIX epoch",
            Self::CacheKeyMalformed => "cache key is not valid sha256 hex (internal invariant broken)",
            Self::AssocPathTooShort => "associated item path invariant broken: expected at least 2 segments",
            Self::AssocParentOwnsNoPage => "associated-item parent kind owns no rustdoc page",
            Self::AllowedOriginUnparseable => "allowed origin is not a valid URL",
            Self::SyntheticParseFailure => "synthetic parse failure",
        }
    }
}

/// English name of an allowlist stage.
pub open spec fn stage_en(s: AllowlistStage) -> Seq<char> {
    match s {
        AllowlistStage::Request => "host"@,
        AllowlistStage::Redirect => "redirect host"@,
        AllowlistStage::FinalUrl => "final URL host"@,
    }
}

impl AllowlistStage {
    /// English name of this stage.
    pub fn en(self) -> (r: &'static str)
        ensures
            r@ == stage_en(self),
    {
        match self {
            Self::Request => "host",
            Self::Redirect => "redirect host",
            Self::FinalUrl => "final URL host",
        }
    }
}

/// Label of a payload flavour (same in both languages).
pub open spec fn content_label(k: ContentKind) -> Seq<char> {
    match k {
        ContentKind::Html => "HTML"@,
        ContentKind::Json => "JSON"@,
    }
}

impl ContentKind {
    /// Label of this payload flavour.
    pub fn label(self) -> (r: &'static str)
        ensures
            r@ == content_label(self),
    {
        match self {
            Self::Html => "HTML",
            Self::Json => "JSON",
        }
    }
}

/// English verb of a destructive effect.
pub open spec fn harm_en(e: DestructiveEffect) -> Seq<char> {
    match e {
        DestructiveEffect::Delete => "delete"@,
        DestructiveEffect::Overwrite => "overwrite"@,
    }
}

fn harm_en_exec(e: DestructiveEffect) -> (r: &'static str)
    ensures
        r@ == harm_en(e),
{
    match e {
        DestructiveEffect::Delete => "delete",
        DestructiveEffect::Overwrite => "overwrite",
    }
}

/// English sentence for a remote HTTP status.
pub open spec fn http_status_en(status: u16, hint: Seq<char>) -> Seq<char> {
    if status == 400 {
        "bad request from remote: "@ + hint
    } else if status == 404 {
        "resource not found: "@ + hint
    } else if status == 408 {
        "remote request timeout (HTTP 408): "@ + hint
    } else if status == 429 {
        "rate limited by remote: "@ + hint
    } else if status == 500 || status == 502 || status == 503 || status == 504 {
        "remote unavailable (HTTP "@ + dec(status as nat) + "): "@ + hint
    } else {
        "unexpected HTTP status "@ + dec(status as nat) + ": "@ + hint
    }
}

fn http_status_en_exec(status: u16, hint: &str) -> (r: String)
    ensures
        r@ == http_status_en(status, hint@),
{
    let mut s = String::new();
    if status == 400 {
        push_str(&mut s, "bad request from remote: ");
    } else if status == 404 {
        push_str(&mut s, "resource not found: ");
    } else if status == 408 {
        push_str(&mut s, "remote request timeout (HTTP 408): ");
    } else if status == 429 {
        push_str(&mut s, "rate limited by remote: ");
    } else if status == 500 || status == 502 || status == 503 || status == 504 {
        push_str(&mut s, "remote unavailable (HTTP ");
        push_dec(&mut s, status as u64);
        push_str(&mut s, "): ");
    } else {
        push_str(&mut s, "unexpected HTTP status ");
        push_dec(&mut s, status as u64);
        push_str(&mut s, ": ");
    }
    push_str(&mut s, hint);
    s
}

/// The ` {path}` part of an I/O sentence, empty when no path is known.
pub open spec fn io_path_part(path: Option<String>) -> Seq<char> {
    match path {
        Some(p) => " "@ + p@,
        None => Seq::empty(),
    }
}

pub(crate) fn io_path_part_exec(path: &Option<String>) -> (r: String)
    ensures
        r@ == io_path_part(*path),
{
    let mut s = String::new();
    match path {
        Some(p) => {
            push_str(&mut s, " ");
            push_str(&mut s, p.as_str());
        },
        None => {},
    }
    s
}

/// English hint telling whether the same command may succeed later.
pub open spec fn io_hint_en(c: IoCause) -> Seq<char> {
    match c {
        IoCause::Transient => " (transient; the same command may succeed once the condition clears)"@,
        IoCause::Permanent => " (permanent; the environment must change first)"@,
    }
}

fn io_hint_en_exec(c: IoCause) -> (r: &'static str)
    ensures
        r@ == io_hint_en(c),
{
    match c {
        IoCause::Transient => " (transient; the same command may succeed once the condition clears)",
        IoCause::Permanent => " (permanent; the environment must change first)",
    }
}

/// English rendering of a failure: the `message` field of the JSON envelope.
pub open spec fn en_text(d: ErrorDetail) -> Seq<char>
    decreases d,
{
    match d {
        ErrorDetail::Empty { subject } => subject_en(subject) + " is empty"@,
        ErrorDetail::TooLong { subject, limit } => subject_en(subject) + " exceeds "@ + dec(limit as nat) + " characters"@,
        ErrorDetail::Invalid { subject, value } => "invalid "@ + subject_en(subject) + " '"@ + value@ + "'"@,
        ErrorDetail::ControlCharacters { subject } => subject_en(subject) + " contains control or invisible characters"@,
        ErrorDetail::NotVisibleAscii { subject } => subject_en(subject) + " must be visible ASCII (no control characters or non-ASCII)"@,
        ErrorDetail::ContainsWhitespace { subject, value } => subject_en(subject) + " contains whitespace: '"@ + value@ + "'"@,
        ErrorDetail::MustBeAtLeastOneSecond { subject, .. } => subject_en(subject) + " must be >= 1 second (got 0)"@,
        ErrorDetail::AboveHardMaximum { subject, hard_max, .. } => subject_en(subject) + " exceeds hard maximum ("@ + dec(hard_max as nat) + ")"@,
        ErrorDetail::ItemPathNoSegments => "item path has no segments"@,
        ErrorDetail::ItemPathMissingItemName => "item path missing item name"@,
        ErrorDetail::CrateRefMultipleAt => "crate reference must contain at most one '@'"@,
        ErrorDetail::CrateRefEmptyName => "crate name is empty before '@'"@,
        ErrorDetail::CrateRefEmptyVersion => "version is empty after '@'"@,
        ErrorDetail::VersionBuildMetadata => "version build metadata is not accepted"@,
        ErrorDetail::VersionVPrefix => "version must not start with 'v' prefix"@,
        ErrorDetail::UnknownMatchMode { value } => "unknown match mode '"@ + value@ + "' (expected exact|prefix|substring)"@,
        ErrorDetail::UnknownItemType { value } => "unknown item type '"@ + value@ + "'"@,
        ErrorDetail::UnsupportedLang { tag } => "unsupported lang '"@ + tag@ + "'; expected en or pt-BR"@,
        ErrorDetail::UnknownSchemaCommand { value } => "unknown schema command '"@ + value@ + "'"@,
        ErrorDetail::JsonFormatConflict => "cannot combine --json with --format text or --format markdown"@,
        ErrorDetail::ClapUsage { message } => message@,
        ErrorDetail::InvalidFilterExpression { expr, reason } => "invalid --filter expression `"@ + expr@ + "`: "@ + reason@,
        ErrorDetail::ModuleFilterUnsupported => "search-in-crate --item-type module is not supported (all.html has no module index); use get-item with kind module"@,
        ErrorDetail::AmbientTargetRefused { verb, target, target_flag, waiver_flag, effect } => verb@ + " would "@ + harm_en(effect) + " an ambient target it was never given: "@ + target@ + "; name it in argv with "@ + target_flag@ + " <DIR>, or accept it with "@ + waiver_flag@,
        ErrorDetail::PageBelowOne => "page must be >= 1 (got 0 or missing)"@,
        ErrorDetail::PerPageOutOfRange { max, got } => "per_page must be 1..="@ + dec(max as nat) + " (got "@ + dec(got as nat) + ")"@,
        ErrorDetail::OriginBadScheme { scheme } => "origin scheme must be http or https, got '"@ + scheme@ + "'"@,
        ErrorDetail::OriginMissingHost { url } => "origin URL must include a host: '"@ + url@ + "'"@,
        ErrorDetail::OriginNotAllowlisted { host, allowed } => "origin host not allowlisted: '"@ + host@ + "' (allowed: "@ + allowed@ + "; loopback requires allow_loopback via CLI or config.toml)"@,
        ErrorDetail::ItemPathSegmentCharset { segment } => "invalid item path segment '"@ + segment@ + "' (use letters, digits, underscore or hyphen; hyphens normalize to underscore; separate with :: or /)"@,
        ErrorDetail::ConflictingVersions { from_ref, from_flag } => "conflicting versions: crate@"@ + from_ref@ + " vs --crate-version "@ + from_flag@,
        ErrorDetail::ConfigDirUnresolved => "config directory could not be resolved (set --config-dir or ensure XDG config home)"@,
        ErrorDetail::CacheDirUnresolved => "cache directory could not be resolved (set --cache-dir or ensure XDG cache home)"@,
        ErrorDetail::ConfigTomlInvalid => "invalid config.toml"@,
        ErrorDetail::ConfigTomlNotUtf8 => "config.toml is not valid UTF-8"@,
        ErrorDetail::ConfigTomlTooLarge { max_bytes } => "config.toml exceeds max size ("@ + dec(max_bytes as nat) + " bytes)"@,
        ErrorDetail::ConfigAlreadyExists { path } => "config already exists: "@ + path@ + " (pass --force to overwrite)"@,
        ErrorDetail::UserAgentHeaderInvalid => "invalid user-agent header"@,
        ErrorDetail::HttpStatus { status, hint } => http_status_en(status, hint@),
        ErrorDetail::HostNotAllowlisted { host, stage } => stage_en(stage) + " not allowlisted: "@ + host@,
        ErrorDetail::HttpRequestFailed { url, .. } => "http request failed for "@ + url@,
        ErrorDetail::RedirectLimitExceeded => "redirect limit exceeded"@,
        ErrorDetail::HttpClientBuild => "failed to build HTTP client"@,
        ErrorDetail::BodyRead => "failed reading response body"@,
        ErrorDetail::BodyOverBudget { max_bytes } => "response body exceeds max_body_bytes ("@ + dec(max_bytes as nat) + ")"@,
        ErrorDetail::CachedBodyOverBudget { max_bytes } => "cached response body exceeds max_body_bytes ("@ + dec(max_bytes as nat) + ")"@,
        ErrorDetail::BodyReserveFailed { bytes } => "failed to reserve "@ + dec(bytes as nat) + " bytes for response body"@,
        ErrorDetail::BodyNotUtf8 => "response body is not valid UTF-8"@,
        ErrorDetail::UnexpectedContentType { expected, got } => "unexpected Content-Type for "@ + content_label(expected) + " response: "@ + got@,
        ErrorDetail::OutputOverBudget => "body too large"@,
        ErrorDetail::HtmlToMarkdown => "html to markdown conversion failed"@,
        ErrorDetail::CratesIoJson => "failed to parse crates.io JSON"@,
        ErrorDetail::AssocParentPageNotFound => "method parent type page not found"@,
        ErrorDetail::AssocAnchorMissing { anchors } => "associated item anchor not found: "@ + anchors@,
        ErrorDetail::AssocAnchorEmpty { anchor_id } => "associated item anchor empty: "@ + anchor_id@,
        ErrorDetail::MemberKindNeedsParent { kind, member, parent_kinds } => kind@ + " has no page of its own: qualify it as Parent::"@ + member@ + " (parent kinds: "@ + parent_kinds@ + ")"@,
        ErrorDetail::HitJoinFailed => "failed to join href (off-origin or invalid against source_url base)"@,
        ErrorDetail::HitBaseInvalid => "invalid source_url for hit join base"@,
        ErrorDetail::Interrupted => "interrupted by SIGINT"@,
        ErrorDetail::Terminated => "terminated by SIGTERM"@,
        ErrorDetail::BrokenPipe => "broken pipe writing to stdout"@,
        ErrorDetail::WallClockTimeout { secs } => "wall-clock timeout after "@ + dec(secs as nat) + "s"@,
        ErrorDetail::Io { op, path, cause } => "failed to "@ + io_op_en(op) + io_path_part(path) + io_hint_en(cause),
        ErrorDetail::Internal { op } => internal_op_en(op),
        ErrorDetail::Message { text, .. } => text@,
        ErrorDetail::WithSuggestions { base, suggestions } => en_text(*base) + "; suggestions: "@ + suggestions_text(suggestions@),
    }
}

/// English rendering — the `message` field of the JSON envelope.
pub fn render_en(d: &ErrorDetail) -> (r: String)
    ensures
        r@ == en_text(*d),
    decreases *d,
{
    match d {
        ErrorDetail::Empty { subject } => {
            let mut s = String::new();
            push_str(&mut s, subject.en());
            push_str(&mut s, " is empty");
            s
        },
        ErrorDetail::TooLong { subject, limit } => {
            let mut s = String::new();
            push_str(&mut s, subject.en());
            push_str(&mut s, " exceeds ");
            push_dec(&mut s, *limit as u64);
            push_str(&mut s, " characters");
            s
        },
        ErrorDetail::Invalid { subject, value } => {
            let mut s = String::new();
            push_str(&mut s, "invalid ");
            push_str(&mut s, subject.en());
            push_str(&mut s, " '");
            push_str(&mut s, value.as_str());
            push_str(&mut s, "'");
            s
        },
        ErrorDetail::ControlCharacters { subject } => {
            let mut s = String::new();
            push_str(&mut s, subject.en());
            push_str(&mut s, " contains control or invisible characters");
            s
        },
        ErrorDetail::NotVisibleAscii { subject } => {
            let mut s = String::new();
            push_str(&mut s, subject.en());
            push_str(&mut s, " must be visible ASCII (no control characters or non-ASCII)");
            s
        },
        ErrorDetail::ContainsWhitespace { subject, value } => {
            let mut s = String::new();
            push_str(&mut s, subject.en());
            push_str(&mut s, " contains whitespace: '");
            push_str(&mut s, value.as_str());
            push_str(&mut s, "'");
            s
        },
        ErrorDetail::MustBeAtLeastOneSecond { subject, .. } => {
            let mut s = String::new();
            push_str(&mut s, subject.en());
            push_str(&mut s, " must be >= 1 second (got 0)");
            s
        },
        ErrorDetail::AboveHardMaximum { subject, hard_max, .. } => {
            let mut s = String::new();
            push_str(&mut s, subject.en());
            push_str(&mut s, " exceeds hard maximum (");
            push_dec(&mut s, *hard_max as u64);
            push_str(&mut s, ")");
            s
        },
        ErrorDetail::ItemPathNoSegments => {
            let mut s = String::new();
            push_str(&mut s, "item path has no segments");
            s
        },
        ErrorDetail::ItemPathMissingItemName => {
            let mut s = String::new();
            push_str(&mut s, "item path missing item name");
            s
        },
        ErrorDetail::CrateRefMultipleAt => {
            let mut s = String::new();
            push_str(&mut s, "crate reference must contain at most one '@'");
            s
        },
        ErrorDetail::CrateRefEmptyName => {
            let mut s = String::new();
            push_str(&mut s, "crate name is empty before '@'");
            s
        },
        ErrorDetail::CrateRefEmptyVersion => {
            let mut s = String::new();
            push_str(&mut s, "version is empty after '@'");
            s
        },
        ErrorDetail::VersionBuildMetadata => {
            let mut s = String::new();
            push_str(&mut s, "version build metadata is not accepted");
            s
        },
        ErrorDetail::VersionVPrefix => {
            let mut s = String::new();
            push_str(&mut s, "version must not start with 'v' prefix");
            s
        },
        ErrorDetail::UnknownMatchMode { value } => {
            let mut s = String::new();
            push_str(&mut s, "unknown match mode '");
            push_str(&mut s, value.as_str());
            push_str(&mut s, "' (expected exact|prefix|substring)");
            s
        },
        ErrorDetail::UnknownItemType { value } => {
            let mut s = String::new();
            push_str(&mut s, "unknown item type '");
            push_str(&mut s, value.as_str());
            push_str(&mut s, "'");
            s
        },
        ErrorDetail::UnsupportedLang { tag } => {
            let mut s = String::new();
            push_str(&mut s, "unsupported lang '");
            push_str(&mut s, tag.as_str());
            push_str(&mut s, "'; expected en or pt-BR");
            s
        },
        ErrorDetail::UnknownSchemaCommand { value } => {
            let mut s = String::new();
            push_str(&mut s, "unknown schema command '");
            push_str(&mut s, value.as_str());
            push_str(&mut s, "'");
            s
        },
        ErrorDetail::JsonFormatConflict => {
            let mut s = String::new();
            push_str(&mut s, "cannot combine --json with --format text or --format markdown");
            s
        },
        ErrorDetail::ClapUsage { message } => {
            let mut s = String::new();
            push_str(&mut s, message.as_str());
            s
        },
        ErrorDetail::InvalidFilterExpression { expr, reason } => {
            let mut s = String::new();
            push_str(&mut s, "invalid --filter expression `");
            push_str(&mut s, expr.as_str());
            push_str(&mut s, "`: ");
            push_str(&mut s, reason.as_str());
            s
        },
        ErrorDetail::ModuleFilterUnsupported => {
            let mut s = String::new();
            push_str(&mut s, "search-in-crate --item-type module is not supported (all.html has no module index); use get-item with kind module");
            s
        },
        ErrorDetail::AmbientTargetRefused { verb, target, target_flag, waiver_flag, effect } => {
            let mut s = String::new();
            push_str(&mut s, verb.as_str());
            push_str(&mut s, " would ");
            push_str(&mut s, harm_en_exec(*effect));
            push_str(&mut s, " an ambient target it was never given: ");
            push_str(&mut s, target.as_str());
            push_str(&mut s, "; name it in argv with ");
            push_str(&mut s, target_flag.as_str());
            push_str(&mut s, " <DIR>, or accept it with ");
            push_str(&mut s, waiver_flag.as_str());
            s
        },
        ErrorDetail::PageBelowOne => {
            let mut s = String::new();
            push_str(&mut s, "page must be >= 1 (got 0 or missing)");
            s
        },
        ErrorDetail::PerPageOutOfRange { max, got } => {
            let mut s = String::new();
            push_str(&mut s, "per_page must be 1..=");
            push_dec(&mut s, *max as u64);
            push_str(&mut s, " (got ");
            push_dec(&mut s, *got as u64);
            push_str(&mut s, ")");
            s
        },
        ErrorDetail::OriginBadScheme { scheme } => {
            let mut s = String::new();
            push_str(&mut s, "origin scheme must be http or https, got '");
            push_str(&mut s, scheme.as_str());
            push_str(&mut s, "'");
            s
        },
        ErrorDetail::OriginMissingHost { url } => {
            let mut s = String::new();
            push_str(&mut s, "origin URL must include a host: '");
            push_str(&mut s, url.as_str());
            push_str(&mut s, "'");
            s
        },
        ErrorDetail::OriginNotAllowlisted { host, allowed } => {
            let mut s = String::new();
            push_str(&mut s, "origin host not allowlisted: '");
            push_str(&mut s, host.as_str());
            push_str(&mut s, "' (allowed: ");
            push_str(&mut s, allowed.as_str());
            push_str(&mut s, "; loopback requires allow_loopback via CLI or config.toml)");
            s
        },
        ErrorDetail::ItemPathSegmentCharset { segment } => {
            let mut s = String::new();
            push_str(&mut s, "invalid item path segment '");
            push_str(&mut s, segment.as_str());
            push_str(&mut s, "' (use letters, digits, underscore or hyphen; hyphens normalize to underscore; separate with :: or /)");
            s
        },
        ErrorDetail::ConflictingVersions { from_ref, from_flag } => {
            let mut s = String::new();
            push_str(&mut s, "conflicting versions: crate@");
            push_str(&mut s, from_ref.as_str());
            push_str(&mut s, " vs --crate-version ");
            push_str(&mut s, from_flag.as_str());
            s
        },
        ErrorDetail::ConfigDirUnresolved => {
            let mut s = String::new();
            push_str(&mut s, "config directory could not be resolved (set --config-dir or ensure XDG config home)");
            s
        },
        ErrorDetail::CacheDirUnresolved => {
            let mut s = String::new();
            push_str(&mut s, "cache directory could not be resolved (set --cache-dir or ensure XDG cache home)");
            s
        },
        ErrorDetail::ConfigTomlInvalid => {
            let mut s = String::new();
            push_str(&mut s, "invalid config.toml");
            s
        },
        ErrorDetail::ConfigTomlNotUtf8 => {
            let mut s = String::new();
            push_str(&mut s, "config.toml is not valid UTF-8");
            s
        },
        ErrorDetail::ConfigTomlTooLarge { max_bytes } => {
            let mut s = String::new();
            push_str(&mut s, "config.toml exceeds max size (");
            push_dec(&mut s, *max_bytes as u64);
            push_str(&mut s, " bytes)");
            s
        },
        ErrorDetail::ConfigAlreadyExists { path } => {
            let mut s = String::new();
            push_str(&mut s, "config already exists: ");
            push_str(&mut s, path.as_str());
            push_str(&mut s, " (pass --force to overwrite)");
            s
        },
        ErrorDetail::UserAgentHeaderInvalid => {
            let mut s = String::new();
            push_str(&mut s, "invalid user-agent header");
            s
        },
        ErrorDetail::HttpStatus { status, hint } => {
            let mut s = String::new();
            let t = http_status_en_exec(*status, hint.as_str());
            push_str(&mut s, t.as_str());
            s
        },
        ErrorDetail::HostNotAllowlisted { host, stage } => {
            let mut s = String::new();
            push_str(&mut s, stage.en());
            push_str(&mut s, " not allowlisted: ");
            push_str(&mut s, host.as_str());
            s
        },
        ErrorDetail::HttpRequestFailed { url, .. } => {
            let mut s = String::new();
            push_str(&mut s, "http request failed for ");
            push_str(&mut s, url.as_str());
            s
        },
        ErrorDetail::RedirectLimitExceeded => {
            let mut s = String::new();
            push_str(&mut s, "redirect limit exceeded");
            s
        },
        ErrorDetail::HttpClientBuild => {
            let mut s = String::new();
            push_str(&mut s, "failed to build HTTP client");
            s
        },
        ErrorDetail::BodyRead => {
            let mut s = String::new();
            push_str(&mut s, "failed reading response body");
            s
        },
        ErrorDetail::BodyOverBudget { max_bytes } => {
            let mut s = String::new();
            push_str(&mut s, "response body exceeds max_body_bytes (");
            push_dec(&mut s, *max_bytes as u64);
            push_str(&mut s, ")");
            s
        },
        ErrorDetail::CachedBodyOverBudget { max_bytes } => {
            let mut s = String::new();
            push_str(&mut s, "cached response body exceeds max_body_bytes (");
            push_dec(&mut s, *max_bytes as u64);
            push_str(&mut s, ")");
            s
        },
        ErrorDetail::BodyReserveFailed { bytes } => {
            let mut s = String::new();
            push_str(&mut s, "failed to reserve ");
            push_dec(&mut s, *bytes as u64);
            push_str(&mut s, " bytes for response body");
            s
        },
        ErrorDetail::BodyNotUtf8 => {
            let mut s = String::new();
            push_str(&mut s, "response body is not valid UTF-8");
            s
        },
        ErrorDetail::UnexpectedContentType { expected, got } => {
            let mut s = String::new();
            push_str(&mut s, "unexpected Content-Type for ");
            push_str(&mut s, expected.label());
            push_str(&mut s, " response: ");
            push_str(&mut s, got.as_str());
            s
        },
        ErrorDetail::OutputOverBudget => {
            let mut s = String::new();
            push_str(&mut s, "body too large");
            s
        },
        ErrorDetail::HtmlToMarkdown => {
            let mut s = String::new();
            push_str(&mut s, "html to markdown conversion failed");
            s
        },
        ErrorDetail::CratesIoJson => {
            let mut s = String::new();
            push_str(&mut s, "failed to parse crates.io JSON");
            s
        },
        ErrorDetail::AssocParentPageNotFound => {
            let mut s = String::new();
            push_str(&mut s, "method parent type page not found");
            s
        },
        ErrorDetail::AssocAnchorMissing { anchors } => {
            let mut s = String::new();
            push_str(&mut s, "associated item anchor not found: ");
            push_str(&mut s, anchors.as_str());
            s
        },
        ErrorDetail::AssocAnchorEmpty { anchor_id } => {
            let mut s = String::new();
            push_str(&mut s, "associated item anchor empty: ");
            push_str(&mut s, anchor_id.as_str());
            s
        },
        ErrorDetail::MemberKindNeedsParent { kind, member, parent_kinds } => {
            let mut s = String::new();
            push_str(&mut s, *kind);
            push_str(&mut s, " has no page of its own: qualify it as Parent::");
            push_str(&mut s, member.as_str());
            push_str(&mut s, " (parent kinds: ");
            push_str(&mut s, parent_kinds.as_str());
            push_str(&mut s, ")");
            s
        },
        ErrorDetail::HitJoinFailed => {
            let mut s = String::new();
            push_str(&mut s, "failed to join href (off-origin or invalid against source_url base)");
            s
        },
        ErrorDetail::HitBaseInvalid => {
            let mut s = String::new();
            push_str(&mut s, "invalid source_url for hit join base");
            s
        },
        ErrorDetail::Interrupted => {
            let mut s = String::new();
            push_str(&mut s, "interrupted by SIGINT");
            s
        },
        ErrorDetail::Terminated => {
            let mut s = String::new();
            push_str(&mut s, "terminated by SIGTERM");
            s
        },
        ErrorDetail::BrokenPipe => {
            let mut s = String::new();
            push_str(&mut s, "broken pipe writing to stdout");
            s
        },
        ErrorDetail::WallClockTimeout { secs } => {
            let mut s = String::new();
            push_str(&mut s, "wall-clock timeout after ");
            push_dec(&mut s, *secs as u64);
            push_str(&mut s, "s");
            s
        },
        ErrorDetail::Io { op, path, cause } => {
            let mut s = String::new();
            push_str(&mut s, "failed to ");
            push_str(&mut s, op.en());
            let t = io_path_part_exec(path);
            push_str(&mut s, t.as_str());
            push_str(&mut s, io_hint_en_exec(*cause));
            s
        },
        ErrorDetail::Internal { op } => {
            let mut s = String::new();
            push_str(&mut s, op.en());
            s
        },
        ErrorDetail::Message { text, .. } => {
            let mut s = String::new();
            push_str(&mut s, text.as_str());
            s
        },
        ErrorDetail::WithSuggestions { base, suggestions } => {
            let mut s = String::new();
            let t = render_en(base);
            push_str(&mut s, t.as_str());
            push_str(&mut s, "; suggestions: ");
            let t = join_suggestions(suggestions.as_slice());
            push_str(&mut s, t.as_str());
            s
        },
    }
}

} // verus!
