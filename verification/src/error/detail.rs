//! Typed catalogue of every product error, carrying data instead of prose.
//!
//! [`ErrorDetail`] carries the values; the two renderers own the words. The
//! kind, the retry answer and both renderings are derived from the detail, so
//! one failure can never be reported two ways.

use vstd::prelude::*;

use super::kind::ErrorKind;
use super::suggestion::{copy_suggestions, Suggestion};
use super::vocab::{
    AllowlistStage, ContentKind, DestructiveEffect, InternalOp, IoCause, IoOp, Subject, ValueSource,
};

verus! {

/// Every failure the product can report, as data.
#[derive(Debug, PartialEq, Eq)]
#[non_exhaustive]
pub enum ErrorDetail {
    /// `subject` was empty or blank.
    Empty {
        /// What was empty.
        subject: Subject,
    },
    /// `subject` was longer than `limit` characters.
    TooLong {
        /// What was too long.
        subject: Subject,
        /// Maximum accepted length in characters.
        limit: usize,
    },
    /// `subject` did not satisfy its format rule.
    Invalid {
        /// What was invalid.
        subject: Subject,
        /// The offending value, echoed back so the caller can see it.
        value: String,
    },
    /// `subject` contained control or invisible characters.
    ControlCharacters {
        /// What carried the characters.
        subject: Subject,
    },
    /// `subject` must be printable ASCII only.
    NotVisibleAscii {
        /// What must be ASCII.
        subject: Subject,
    },
    /// `subject` contained whitespace where none is allowed.
    ContainsWhitespace {
        /// What carried the whitespace.
        subject: Subject,
        /// The offending value.
        value: String,
    },
    /// A duration knob was set to zero.
    MustBeAtLeastOneSecond {
        /// Which duration.
        subject: Subject,
        /// Layer the value came from (decides `invalid_input` vs `config`).
        source: ValueSource,
    },
    /// A byte budget was raised above the product's hard ceiling.
    AboveHardMaximum {
        /// Which budget.
        subject: Subject,
        /// The ceiling that cannot be raised.
        hard_max: u64,
        /// Layer the value came from (decides `invalid_input` vs `config`).
        source: ValueSource,
    },
    /// An item path yielded no usable segments.
    ItemPathNoSegments,
    /// A non-module item path ended without an item name.
    ItemPathMissingItemName,
    /// A crate reference carried more than one `@`.
    CrateRefMultipleAt,
    /// A crate reference had nothing before its `@`.
    CrateRefEmptyName,
    /// A crate reference had nothing after its `@`.
    CrateRefEmptyVersion,
    /// A version carried `+build` metadata, which docs.rs does not resolve.
    VersionBuildMetadata,
    /// A version was written with the `v` prefix.
    VersionVPrefix,
    /// `--match` received a value outside the accepted set.
    UnknownMatchMode {
        /// What was passed.
        value: String,
    },
    /// A kind alias was not recognized.
    UnknownItemType {
        /// What was passed.
        value: String,
    },
    /// `--lang` received an unsupported BCP-47 tag.
    UnsupportedLang {
        /// What was passed.
        tag: String,
    },
    /// `schema --cmd` named a document that does not exist.
    UnknownSchemaCommand {
        /// What was passed.
        value: String,
    },
    /// `--json` was combined with a human output format.
    JsonFormatConflict,
    /// Argv failed parsing; the text is the parser's own rendering, carried verbatim.
    ClapUsage {
        /// The parser's rendered message.
        message: String,
    },
    /// `--filter` could not be parsed.
    InvalidFilterExpression {
        /// The expression as written.
        expr: String,
        /// Why it was rejected.
        reason: String,
    },
    /// `search-in-crate --item-type module` has no catalogue to read.
    ModuleFilterUnsupported,
    /// A destructive verb resolved its target from ambient state, not from argv.
    AmbientTargetRefused {
        /// The invocation that was refused, in wire spelling.
        verb: String,
        /// The target the environment resolved.
        target: String,
        /// The flag that names the target in argv instead.
        target_flag: String,
        /// The flag that explicitly accepts the ambient target.
        waiver_flag: String,
        /// What would have happened to the target.
        effect: DestructiveEffect,
    },
    /// `--page` was zero or absent where one is required.
    PageBelowOne,
    /// `--per-page` fell outside its accepted range.
    PerPageOutOfRange {
        /// Highest accepted value.
        max: u32,
        /// What was passed.
        got: u32,
    },
    /// An origin URL used a scheme other than http or https.
    OriginBadScheme {
        /// The scheme as written.
        scheme: String,
    },
    /// An origin URL carried no host component.
    OriginMissingHost {
        /// The URL as written.
        url: String,
    },
    /// An origin host was outside the SSRF allowlist.
    OriginNotAllowlisted {
        /// The rejected host.
        host: String,
        /// Comma-separated allowlist, so the operator sees the accepted set.
        allowed: String,
    },
    /// An item path segment used characters outside the accepted set.
    ItemPathSegmentCharset {
        /// The offending segment.
        segment: String,
    },
    /// `crate@version` and `--crate-version` disagreed.
    ConflictingVersions {
        /// Version taken from the `crate@version` sugar.
        from_ref: String,
        /// Version taken from the explicit flag.
        from_flag: String,
    },
    /// The XDG config directory could not be resolved.
    ConfigDirUnresolved,
    /// The XDG cache directory could not be resolved.
    CacheDirUnresolved,
    /// `config.toml` failed to parse as TOML.
    ConfigTomlInvalid,
    /// `config.toml` was not valid UTF-8.
    ConfigTomlNotUtf8,
    /// `config init` found an existing file and `--force` was absent.
    ConfigAlreadyExists {
        /// Absolute path that would have been overwritten.
        path: String,
    },
    /// `config.toml` was larger than the read cap.
    ConfigTomlTooLarge {
        /// The cap in bytes.
        max_bytes: u64,
    },
    /// The configured User-Agent was rejected as an HTTP header value.
    UserAgentHeaderInvalid,
    /// A remote returned a status that maps to a domain failure.
    HttpStatus {
        /// The HTTP status code.
        status: u16,
        /// Short non-sensitive context label (endpoint name, never a body).
        hint: String,
    },
    /// A request or redirect targeted a host outside the allowlist.
    HostNotAllowlisted {
        /// The rejected host.
        host: String,
        /// Which stage rejected it.
        stage: AllowlistStage,
    },
    /// The transport failed before any status was seen; the kind comes from the
    /// transport's classification.
    HttpRequestFailed {
        /// The URL that was being fetched.
        url: String,
        /// Classification supplied by the transport layer.
        kind: ErrorKind,
    },
    /// The redirect chain went past `max_redirects`.
    RedirectLimitExceeded,
    /// Building the HTTP client failed.
    HttpClientBuild,
    /// Reading the response body failed mid-stream.
    BodyRead,
    /// The response body passed the configured byte budget.
    BodyOverBudget {
        /// The budget in bytes.
        max_bytes: u64,
    },
    /// A cached body no longer fits the current byte budget.
    CachedBodyOverBudget {
        /// The budget in bytes.
        max_bytes: u64,
    },
    /// Reserving body capacity failed (allocation refused).
    BodyReserveFailed {
        /// Bytes that could not be reserved.
        bytes: usize,
    },
    /// The response body was not valid UTF-8.
    BodyNotUtf8,
    /// The response advertised a content type the endpoint cannot use.
    UnexpectedContentType {
        /// Flavour the caller required.
        expected: ContentKind,
        /// What the remote advertised.
        got: String,
    },
    /// The emitted payload passed `max_output_bytes`.
    OutputOverBudget,
    /// HTML could not be converted to Markdown.
    HtmlToMarkdown,
    /// crates.io returned JSON the parser rejected.
    CratesIoJson,
    /// No parent page existed for an associated item.
    AssocParentPageNotFound,
    /// The parent page was found but carried no anchor for the member.
    AssocAnchorMissing {
        /// Comma-separated anchor ids that were tried.
        anchors: String,
    },
    /// The member anchor existed but its docblock was empty.
    AssocAnchorEmpty {
        /// The anchor id that was found.
        anchor_id: String,
    },
    /// A member-only kind was requested without a parent to anchor against.
    MemberKindNeedsParent {
        /// The kind as the user typed it.
        kind: &'static str,
        /// The leaf they supplied, echoed into the suggested rewrite.
        member: String,
        /// Comma-separated parent kinds that can host this member.
        parent_kinds: String,
    },
    /// A hit href could not be joined against its origin.
    HitJoinFailed,
    /// A hit's `source_url` was not a usable join base.
    HitBaseInvalid,
    /// SIGINT / Ctrl-C.
    Interrupted,
    /// SIGTERM.
    Terminated,
    /// stdout was closed by the reader.
    BrokenPipe,
    /// The wall-clock deadline elapsed.
    WallClockTimeout {
        /// Deadline in seconds.
        secs: u64,
    },
    /// A filesystem operation failed; the cause decides retryability.
    Io {
        /// What was being attempted.
        op: IoOp,
        /// Path involved, when one is known and safe to show.
        path: Option<String>,
        /// Whether waiting could plausibly change the outcome.
        cause: IoCause,
    },
    /// An internal invariant or host facility failed.
    Internal {
        /// What was being attempted.
        op: InternalOp,
    },
    /// A failure described by free English text and an explicit kind.
    ///
    /// Its Portuguese rendering is the phrase translation of
    /// [`crate::i18n::translate_error_pt_br`].
    Message {
        /// The kind chosen by the caller.
        kind: ErrorKind,
        /// Technical English text.
        text: String,
    },
    /// Another failure, with ranked `--suggest` alternatives appended.
    WithSuggestions {
        /// The failure being explained.
        base: Box<ErrorDetail>,
        /// Ranked alternatives, best first.
        suggestions: Vec<Suggestion>,
    },
}

/// `a` and `b` are the same catalogue entry: equal, or suggestion wrappers of
/// the same entry that carry the same list.
pub open spec fn same_detail(a: ErrorDetail, b: ErrorDetail) -> bool
    decreases a,
{
    match a {
        ErrorDetail::WithSuggestions { base: x, suggestions: s } => match b {
            ErrorDetail::WithSuggestions { base: y, suggestions: t } => same_detail(*x, *y)
                && s@ == t@,
            _ => false,
        },
        _ => a == b,
    }
}

impl Clone for ErrorDetail {
    fn clone(&self) -> (r: Self)
        ensures
            same_detail(r, *self),
        decreases self,
    {
        match self {
            ErrorDetail::Empty { subject } => ErrorDetail::Empty { subject: *subject },
            ErrorDetail::TooLong { subject, limit } => ErrorDetail::TooLong { subject: *subject, limit: *limit },
            ErrorDetail::Invalid { subject, value } => ErrorDetail::Invalid { subject: *subject, value: value.clone() },
            ErrorDetail::ControlCharacters { subject } => ErrorDetail::ControlCharacters { subject: *subject },
            ErrorDetail::NotVisibleAscii { subject } => ErrorDetail::NotVisibleAscii { subject: *subject },
            ErrorDetail::ContainsWhitespace { subject, value } => ErrorDetail::ContainsWhitespace { subject: *subject, value: value.clone() },
            ErrorDetail::MustBeAtLeastOneSecond { subject, source } => ErrorDetail::MustBeAtLeastOneSecond { subject: *subject, source: *source },
            ErrorDetail::AboveHardMaximum { subject, hard_max, source } => ErrorDetail::AboveHardMaximum { subject: *subject, hard_max: *hard_max, source: *source },
            ErrorDetail::ItemPathNoSegments => ErrorDetail::ItemPathNoSegments,
            ErrorDetail::ItemPathMissingItemName => ErrorDetail::ItemPathMissingItemName,
            ErrorDetail::CrateRefMultipleAt => ErrorDetail::CrateRefMultipleAt,
            ErrorDetail::CrateRefEmptyName => ErrorDetail::CrateRefEmptyName,
            ErrorDetail::CrateRefEmptyVersion => ErrorDetail::CrateRefEmptyVersion,
            ErrorDetail::VersionBuildMetadata => ErrorDetail::VersionBuildMetadata,
            ErrorDetail::VersionVPrefix => ErrorDetail::VersionVPrefix,
            ErrorDetail::UnknownMatchMode { value } => ErrorDetail::UnknownMatchMode { value: value.clone() },
            ErrorDetail::UnknownItemType { value } => ErrorDetail::UnknownItemType { value: value.clone() },
            ErrorDetail::UnsupportedLang { tag } => ErrorDetail::UnsupportedLang { tag: tag.clone() },
            ErrorDetail::UnknownSchemaCommand { value } => ErrorDetail::UnknownSchemaCommand { value: value.clone() },
            ErrorDetail::JsonFormatConflict => ErrorDetail::JsonFormatConflict,
            ErrorDetail::ClapUsage { message } => ErrorDetail::ClapUsage { message: message.clone() },
            ErrorDetail::InvalidFilterExpression { expr, reason } => ErrorDetail::InvalidFilterExpression { expr: expr.clone(), reason: reason.clone() },
            ErrorDetail::ModuleFilterUnsupported => ErrorDetail::ModuleFilterUnsupported,
            ErrorDetail::AmbientTargetRefused { verb, target, target_flag, waiver_flag, effect } => ErrorDetail::AmbientTargetRefused { verb: verb.clone(), target: target.clone(), target_flag: target_flag.clone(), waiver_flag: waiver_flag.clone(), effect: *effect },
            ErrorDetail::PageBelowOne => ErrorDetail::PageBelowOne,
            ErrorDetail::PerPageOutOfRange { max, got } => ErrorDetail::PerPageOutOfRange { max: *max, got: *got },
            ErrorDetail::OriginBadScheme { scheme } => ErrorDetail::OriginBadScheme { scheme: scheme.clone() },
            ErrorDetail::OriginMissingHost { url } => ErrorDetail::OriginMissingHost { url: url.clone() },
            ErrorDetail::OriginNotAllowlisted { host, allowed } => ErrorDetail::OriginNotAllowlisted { host: host.clone(), allowed: allowed.clone() },
            ErrorDetail::ItemPathSegmentCharset { segment } => ErrorDetail::ItemPathSegmentCharset { segment: segment.clone() },
            ErrorDetail::ConflictingVersions { from_ref, from_flag } => ErrorDetail::ConflictingVersions { from_ref: from_ref.clone(), from_flag: from_flag.clone() },
            ErrorDetail::ConfigDirUnresolved => ErrorDetail::ConfigDirUnresolved,
            ErrorDetail::CacheDirUnresolved => ErrorDetail::CacheDirUnresolved,
            ErrorDetail::ConfigTomlInvalid => ErrorDetail::ConfigTomlInvalid,
            ErrorDetail::ConfigTomlNotUtf8 => ErrorDetail::ConfigTomlNotUtf8,
            ErrorDetail::ConfigAlreadyExists { path } => ErrorDetail::ConfigAlreadyExists { path: path.clone() },
            ErrorDetail::ConfigTomlTooLarge { max_bytes } => ErrorDetail::ConfigTomlTooLarge { max_bytes: *max_bytes },
            ErrorDetail::UserAgentHeaderInvalid => ErrorDetail::UserAgentHeaderInvalid,
            ErrorDetail::HttpStatus { status, hint } => ErrorDetail::HttpStatus { status: *status, hint: hint.clone() },
            ErrorDetail::HostNotAllowlisted { host, stage } => ErrorDetail::HostNotAllowlisted { host: host.clone(), stage: *stage },
            ErrorDetail::HttpRequestFailed { url, kind } => ErrorDetail::HttpRequestFailed { url: url.clone(), kind: *kind },
            ErrorDetail::RedirectLimitExceeded => ErrorDetail::RedirectLimitExceeded,
            ErrorDetail::HttpClientBuild => ErrorDetail::HttpClientBuild,
            ErrorDetail::BodyRead => ErrorDetail::BodyRead,
            ErrorDetail::BodyOverBudget { max_bytes } => ErrorDetail::BodyOverBudget { max_bytes: *max_bytes },
            ErrorDetail::CachedBodyOverBudget { max_bytes } => ErrorDetail::CachedBodyOverBudget { max_bytes: *max_bytes },
            ErrorDetail::BodyReserveFailed { bytes } => ErrorDetail::BodyReserveFailed { bytes: *bytes },
            ErrorDetail::BodyNotUtf8 => ErrorDetail::BodyNotUtf8,
            ErrorDetail::UnexpectedContentType { expected, got } => ErrorDetail::UnexpectedContentType { expected: *expected, got: got.clone() },
            ErrorDetail::OutputOverBudget => ErrorDetail::OutputOverBudget,
            ErrorDetail::HtmlToMarkdown => ErrorDetail::HtmlToMarkdown,
            ErrorDetail::CratesIoJson => ErrorDetail::CratesIoJson,
            ErrorDetail::AssocParentPageNotFound => ErrorDetail::AssocParentPageNotFound,
            ErrorDetail::AssocAnchorMissing { anchors } => ErrorDetail::AssocAnchorMissing { anchors: anchors.clone() },
            ErrorDetail::AssocAnchorEmpty { anchor_id } => ErrorDetail::AssocAnchorEmpty { anchor_id: anchor_id.clone() },
            ErrorDetail::MemberKindNeedsParent { kind, member, parent_kinds } => ErrorDetail::MemberKindNeedsParent { kind: *kind, member: member.clone(), parent_kinds: parent_kinds.clone() },
            ErrorDetail::HitJoinFailed => ErrorDetail::HitJoinFailed,
            ErrorDetail::HitBaseInvalid => ErrorDetail::HitBaseInvalid,
            ErrorDetail::Interrupted => ErrorDetail::Interrupted,
            ErrorDetail::Terminated => ErrorDetail::Terminated,
            ErrorDetail::BrokenPipe => ErrorDetail::BrokenPipe,
            ErrorDetail::WallClockTimeout { secs } => ErrorDetail::WallClockTimeout { secs: *secs },
            ErrorDetail::Io { op, path, cause } => ErrorDetail::Io { op: *op, path: match path { Some(p) => Some(p.clone()), None => None }, cause: *cause },
            ErrorDetail::Internal { op } => ErrorDetail::Internal { op: *op },
            ErrorDetail::Message { kind, text } => ErrorDetail::Message { kind: *kind, text: text.clone() },
            ErrorDetail::WithSuggestions { base, suggestions } => ErrorDetail::WithSuggestions { base: Box::new((**base).clone()), suggestions: copy_suggestions(suggestions.as_slice()) },
        }
    }
}

} // verus!
