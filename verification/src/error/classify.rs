//! Classification: which [`ErrorKind`] a failure is, and whether to retry it.

use vstd::prelude::*;

use super::detail::ErrorDetail;
use super::kind::{kind_retryable, ErrorKind};
use super::vocab::{
    cause_of_kind, subject_is_config, InternalOp, IoCause, IoOp, OsErrorKind, ValueSource,
};

verus! {

/// Canonical kind of a failure.
pub open spec fn detail_kind(d: ErrorDetail) -> ErrorKind
    decreases d,
{
    match d {
        ErrorDetail::Empty { subject }
        | ErrorDetail::TooLong { subject, .. }
        | ErrorDetail::Invalid { subject, .. }
        | ErrorDetail::ControlCharacters { subject }
        | ErrorDetail::ContainsWhitespace { subject, .. } => {
            if subject_is_config(subject) {
                ErrorKind::Config
            } else {
                ErrorKind::InvalidInput
            }
        },
        ErrorDetail::MustBeAtLeastOneSecond { source, .. }
        | ErrorDetail::AboveHardMaximum { source, .. } => match source {
            ValueSource::CommandLine => ErrorKind::InvalidInput,
            ValueSource::ConfigFile => ErrorKind::Config,
        },
        ErrorDetail::ItemPathNoSegments
        | ErrorDetail::ItemPathMissingItemName
        | ErrorDetail::CrateRefMultipleAt
        | ErrorDetail::CrateRefEmptyName
        | ErrorDetail::CrateRefEmptyVersion
        | ErrorDetail::VersionBuildMetadata
        | ErrorDetail::VersionVPrefix
        | ErrorDetail::UnknownMatchMode { .. }
        | ErrorDetail::UnknownItemType { .. }
        | ErrorDetail::UnsupportedLang { .. }
        | ErrorDetail::InvalidFilterExpression { .. }
        | ErrorDetail::ModuleFilterUnsupported
        | ErrorDetail::PageBelowOne
        | ErrorDetail::PerPageOutOfRange { .. }
        | ErrorDetail::MemberKindNeedsParent { .. }
        | ErrorDetail::ItemPathSegmentCharset { .. }
        | ErrorDetail::ConflictingVersions { .. } => ErrorKind::InvalidInput,
        ErrorDetail::NotVisibleAscii { .. }
        | ErrorDetail::OriginBadScheme { .. }
        | ErrorDetail::OriginMissingHost { .. }
        | ErrorDetail::ConfigDirUnresolved
        | ErrorDetail::CacheDirUnresolved
        | ErrorDetail::ConfigTomlInvalid
        | ErrorDetail::ConfigTomlNotUtf8
        | ErrorDetail::ConfigTomlTooLarge { .. }
        | ErrorDetail::UserAgentHeaderInvalid
        | ErrorDetail::ConfigAlreadyExists { .. }
        | ErrorDetail::OriginNotAllowlisted { .. } => ErrorKind::Config,
        ErrorDetail::JsonFormatConflict
        | ErrorDetail::UnknownSchemaCommand { .. }
        | ErrorDetail::AmbientTargetRefused { .. }
        | ErrorDetail::ClapUsage { .. } => ErrorKind::Usage,
        ErrorDetail::HttpStatus { status, .. } => status_kind(status),
        ErrorDetail::HostNotAllowlisted { .. }
        | ErrorDetail::RedirectLimitExceeded
        | ErrorDetail::HttpClientBuild
        | ErrorDetail::BodyRead
        | ErrorDetail::BodyReserveFailed { .. } => ErrorKind::Network,
        ErrorDetail::BodyOverBudget { .. }
        | ErrorDetail::CachedBodyOverBudget { .. }
        | ErrorDetail::OutputOverBudget => ErrorKind::Budget,
        ErrorDetail::BodyNotUtf8
        | ErrorDetail::UnexpectedContentType { .. }
        | ErrorDetail::HtmlToMarkdown
        | ErrorDetail::CratesIoJson
        | ErrorDetail::HitJoinFailed
        | ErrorDetail::HitBaseInvalid => ErrorKind::Parse,
        ErrorDetail::AssocParentPageNotFound
        | ErrorDetail::AssocAnchorMissing { .. }
        | ErrorDetail::AssocAnchorEmpty { .. } => ErrorKind::NotFound,
        ErrorDetail::HttpRequestFailed { kind, .. } => kind,
        ErrorDetail::Message { kind, .. } => kind,
        ErrorDetail::Interrupted => ErrorKind::Interrupted,
        ErrorDetail::Terminated => ErrorKind::Terminated,
        ErrorDetail::BrokenPipe => ErrorKind::BrokenPipe,
        ErrorDetail::WallClockTimeout { .. } => ErrorKind::Timeout,
        ErrorDetail::Io { .. } => ErrorKind::Io,
        ErrorDetail::Internal { op } => match op {
            InternalOp::SyntheticParseFailure => ErrorKind::Parse,
            _ => ErrorKind::Internal,
        },
        ErrorDetail::WithSuggestions { base, .. } => detail_kind(*base),
    }
}

/// Kind of a remote HTTP status.
pub open spec fn status_kind(status: u16) -> ErrorKind {
    if status == 400 {
        ErrorKind::InvalidInput
    } else if status == 404 {
        ErrorKind::NotFound
    } else if status == 408 {
        ErrorKind::Timeout
    } else if status == 429 {
        ErrorKind::RateLimited
    } else if status == 500 || status == 502 || status == 503 || status == 504 {
        ErrorKind::Unavailable
    } else {
        ErrorKind::Network
    }
}

/// Whether an agent may retry the invocation that produced a failure: the
/// filesystem cause decides for I/O failures, the kind decides for the rest.
pub open spec fn detail_retryable(d: ErrorDetail) -> bool
    decreases d,
{
    match d {
        ErrorDetail::Io { cause, .. } => cause == IoCause::Transient,
        ErrorDetail::WithSuggestions { base, .. } => detail_retryable(*base),
        _ => kind_retryable(detail_kind(d)),
    }
}

fn status_kind_exec(status: u16) -> (r: ErrorKind)
    ensures
        r == status_kind(status),
{
    if status == 400 {
        ErrorKind::InvalidInput
    } else if status == 404 {
        ErrorKind::NotFound
    } else if status == 408 {
        ErrorKind::Timeout
    } else if status == 429 {
        ErrorKind::RateLimited
    } else if status == 500 || status == 502 || status == 503 || status == 504 {
        ErrorKind::Unavailable
    } else {
        ErrorKind::Network
    }
}

impl ErrorDetail {
    /// Canonical [`ErrorKind`] for this failure.
    pub fn kind(&self) -> (r: ErrorKind)
        ensures
            r == detail_kind(*self),
        decreases *self,
    {
        match self {
            Self::Empty { subject }
            | Self::TooLong { subject, .. }
            | Self::Invalid { subject, .. }
            | Self::ControlCharacters { subject }
            | Self::ContainsWhitespace { subject, .. } => {
                if subject.is_operator_config() {
                    ErrorKind::Config
                } else {
                    ErrorKind::InvalidInput
                }
            },
            Self::MustBeAtLeastOneSecond { source, .. } | Self::AboveHardMaximum { source, .. } => {
                match source {
                    ValueSource::CommandLine => ErrorKind::InvalidInput,
                    ValueSource::ConfigFile => ErrorKind::Config,
                }
            },
            Self::ItemPathNoSegments
            | Self::ItemPathMissingItemName
            | Self::CrateRefMultipleAt
            | Self::CrateRefEmptyName
            | Self::CrateRefEmptyVersion
            | Self::VersionBuildMetadata
            | Self::VersionVPrefix
            | Self::UnknownMatchMode { .. }
            | Self::UnknownItemType { .. }
            | Self::UnsupportedLang { .. }
            | Self::InvalidFilterExpression { .. }
            | Self::ModuleFilterUnsupported
            | Self::PageBelowOne
            | Self::PerPageOutOfRange { .. }
            | Self::MemberKindNeedsParent { .. }
            | Self::ItemPathSegmentCharset { .. }
            | Self::ConflictingVersions { .. } => ErrorKind::InvalidInput,
            Self::NotVisibleAscii { .. }
            | Self::OriginBadScheme { .. }
            | Self::OriginMissingHost { .. }
            | Self::ConfigDirUnresolved
            | Self::CacheDirUnresolved
            | Self::ConfigTomlInvalid
            | Self::ConfigTomlNotUtf8
            | Self::ConfigTomlTooLarge { .. }
            | Self::UserAgentHeaderInvalid
            | Self::ConfigAlreadyExists { .. }
            | Self::OriginNotAllowlisted { .. } => ErrorKind::Config,
            Self::JsonFormatConflict
            | Self::UnknownSchemaCommand { .. }
            | Self::AmbientTargetRefused { .. }
            | Self::ClapUsage { .. } => ErrorKind::Usage,
            Self::HttpStatus { status, .. } => status_kind_exec(*status),
            Self::HostNotAllowlisted { .. }
            | Self::RedirectLimitExceeded
            | Self::HttpClientBuild
            | Self::BodyRead
            | Self::BodyReserveFailed { .. } => ErrorKind::Network,
            Self::BodyOverBudget { .. }
            | Self::CachedBodyOverBudget { .. }
            | Self::OutputOverBudget => ErrorKind::Budget,
            Self::BodyNotUtf8
            | Self::UnexpectedContentType { .. }
            | Self::HtmlToMarkdown
            | Self::CratesIoJson
            | Self::HitJoinFailed
            | Self::HitBaseInvalid => ErrorKind::Parse,
            Self::AssocParentPageNotFound
            | Self::AssocAnchorMissing { .. }
            | Self::AssocAnchorEmpty { .. } => ErrorKind::NotFound,
            Self::HttpRequestFailed { kind, .. } => *kind,
            Self::Message { kind, .. } => *kind,
            Self::Interrupted => ErrorKind::Interrupted,
            Self::Terminated => ErrorKind::Terminated,
            Self::BrokenPipe => ErrorKind::BrokenPipe,
            Self::WallClockTimeout { .. } => ErrorKind::Timeout,
            Self::Io { .. } => ErrorKind::Io,
            Self::Internal { op } => match op {
                InternalOp::SyntheticParseFailure => ErrorKind::Parse,
                _ => ErrorKind::Internal,
            },
            Self::WithSuggestions { base, .. } => base.kind(),
        }
    }

    /// Build a filesystem failure, classifying the OS cause at the call site
    /// ([`IoCause::of`]): the operation and path are kept, the cause is the
    /// class of the error's (opaque) OS category.
    pub fn io(op: IoOp, path: Option<String>, err: &std::io::Error) -> (r: Self)
        ensures
            exists|k: OsErrorKind| r == (ErrorDetail::Io { op, path, cause: cause_of_kind(k) }),
    {
        ErrorDetail::Io { op, path, cause: IoCause::of(err) }
    }

    /// Whether an agent may retry the invocation that produced this failure.
    pub fn retryable(&self) -> (r: bool)
        ensures
            r == detail_retryable(*self),
        decreases *self,
    {
        match self {
            Self::Io { cause, .. } => cause.retryable(),
            Self::WithSuggestions { base, .. } => base.retryable(),
            _ => self.kind().retryable(),
        }
    }
}

} // verus!
