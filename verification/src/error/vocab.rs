//! Vocabulary the error catalogue is written in: what an error is about, which
//! operation failed, and where a value came from.

use vstd::prelude::*;

verus! {

/// The thing an error is about, when the failure shape is generic.
#[derive(Debug, Clone, Copy, PartialEq, Eq, Structural)]
pub enum Subject {
    /// A crate name (`serde`).
    CrateName,
    /// A crate reference (`serde@1.0.0`).
    CrateRef,
    /// A search query string.
    SearchQuery,
    /// A rustdoc item path (`runtime::Runtime::new`).
    ItemPath,
    /// One `::`-separated segment of an item path.
    ItemPathSegment,
    /// A semver version argument.
    Version,
    /// The `--page-token` opaque pagination cursor.
    PageToken,
    /// The HTTP `User-Agent` header value.
    UserAgent,
    /// The contact URL or address embedded in the User-Agent.
    Contact,
    /// An allowlisted origin URL.
    Origin,
    /// The wall-clock request timeout.
    Timeout,
    /// The TCP connect timeout.
    ConnectTimeout,
    /// The downloaded-body byte budget.
    MaxBodyBytes,
    /// The emitted-stdout byte budget.
    MaxOutputBytes,
    /// The optional XDG `config.toml`.
    ConfigFile,
    /// The `log_directive` tracing filter from `config.toml`.
    LogDirective,
}

/// Grammatical gender of a [`Subject`] noun in Portuguese.
#[derive(Debug, Clone, Copy, PartialEq, Eq, Structural)]
pub enum GenderPtBr {
    /// Masculine noun (`nome`, `caminho`, `contato`).
    Masculine,
    /// Feminine noun (`consulta`, `versão`, `referência`).
    Feminine,
}

/// Gender of a subject's Portuguese noun.
pub open spec fn subject_gender(s: Subject) -> GenderPtBr {
    match s {
        Subject::CrateRef | Subject::SearchQuery | Subject::Version | Subject::Origin => {
            GenderPtBr::Feminine
        },
        _ => GenderPtBr::Masculine,
    }
}

/// Subjects that are operator configuration rather than command input.
pub open spec fn subject_is_config(s: Subject) -> bool {
    match s {
        Subject::Origin | Subject::UserAgent | Subject::Contact | Subject::ConfigFile
        | Subject::LogDirective => true,
        _ => false,
    }
}

impl Subject {
    /// Gender of this subject's Portuguese noun, for adjective agreement.
    pub fn gender_pt_br(self) -> (r: GenderPtBr)
        ensures
            r == subject_gender(self),
    {
        match self {
            Self::CrateRef | Self::SearchQuery | Self::Version | Self::Origin => {
                GenderPtBr::Feminine
            },
            Self::CrateName
            | Self::ItemPath
            | Self::ItemPathSegment
            | Self::PageToken
            | Self::UserAgent
            | Self::Contact
            | Self::Timeout
            | Self::ConnectTimeout
            | Self::MaxBodyBytes
            | Self::MaxOutputBytes
            | Self::ConfigFile
            | Self::LogDirective => GenderPtBr::Masculine,
        }
    }

    /// Whether this subject is operator configuration rather than command input.
    pub fn is_operator_config(self) -> (r: bool)
        ensures
            r == subject_is_config(self),
    {
        match self {
            Self::Origin | Self::UserAgent | Self::Contact | Self::ConfigFile
            | Self::LogDirective => true,
            _ => false,
        }
    }
}

/// Which layer supplied a value that failed validation.
#[derive(Debug, Clone, Copy, PartialEq, Eq, Structural)]
pub enum ValueSource {
    /// Passed as a CLI flag in this invocation.
    CommandLine,
    /// Read from the XDG `config.toml`.
    ConfigFile,
}

/// A filesystem or process operation that failed.
#[derive(Debug, Clone, Copy, PartialEq, Eq, Structural)]
pub enum IoOp {
    /// Reading a file.
    Read,
    /// Writing a file.
    Write,
    /// Creating a directory.
    CreateDir,
    /// Creating a temporary file.
    CreateTemp,
    /// Renaming a path into place.
    Rename,
    /// Flushing data to durable storage.
    Sync,
    /// Installing a generated file at its destination.
    Install,
    /// Opening a lock file.
    OpenLock,
    /// Taking an exclusive lock.
    Lock,
    /// Listing a directory.
    ReadDir,
    /// Removing an entry.
    Remove,
}

/// An internal invariant or infrastructure failure.
#[derive(Debug, Clone, Copy, PartialEq, Eq, Structural)]
pub enum InternalOp {
    /// Serializing a value to JSON.
    JsonSerialize,
    /// Pretty-printing JSON.
    JsonPrettyPrint,
    /// Writing to stdout.
    StdoutWrite,
    /// An embedded schema document is not valid JSON.
    EmbeddedSchemaInvalid,
    /// A built URL was rejected by the parser.
    UrlBuild,
    /// The concurrency semaphore was closed.
    SemaphoreClosed,
    /// A CPU worker task failed to join.
    WorkerJoin,
    /// A CPU worker panicked mid-parse.
    WorkerPanic,
    /// The system clock is before the UNIX epoch.
    ClockBeforeEpoch,
    /// A cache key did not satisfy its own format invariant.
    CacheKeyMalformed,
    /// An associated-item path reached the builder with too few segments.
    AssocPathTooShort,
    /// A probe table named a member kind as a parent page host.
    AssocParentOwnsNoPage,
    /// An already-validated origin failed to re-parse.
    AllowedOriginUnparseable,
    /// Injected failure used by tests to exercise the CPU-bound error path.
    SyntheticParseFailure,
}

/// Where an allowlist rejection happened.
#[derive(Debug, Clone, Copy, PartialEq, Eq, Structural)]
pub enum AllowlistStage {
    /// The URL the caller asked for.
    Request,
    /// A hop inside the redirect chain.
    Redirect,
    /// The URL the chain finally landed on.
    FinalUrl,
}

/// Which payload flavour a response was expected to carry.
#[derive(Debug, Clone, Copy, PartialEq, Eq, Structural)]
pub enum ContentKind {
    /// `text/html`
    Html,
    /// `application/json`
    Json,
}

/// What a destructive verb would have done to the target it was refused.
#[derive(Debug, Clone, Copy, PartialEq, Eq, Structural)]
pub enum DestructiveEffect {
    /// The target and its contents would be removed (`cache clear`).
    Delete,
    /// The target would be replaced in place (`config init --force`).
    Overwrite,
}

/// Why an I/O failure is or is not worth another attempt.
#[derive(Debug, Clone, Copy, PartialEq, Eq, Structural)]
pub enum IoCause {
    /// The condition can clear without the caller changing anything.
    Transient,
    /// The condition needs operator action; retrying repeats the failure.
    Permanent,
}

/// Operating-system error categories that decide an [`IoCause`].
///
/// Mirrors the `std::io::ErrorKind` values the classification reads; every other
/// category is [`OsErrorKind::Other`].
#[derive(Debug, Clone, Copy, PartialEq, Eq, Structural)]
pub enum OsErrorKind {
    /// The disk is full.
    StorageFull,
    /// The call was interrupted.
    Interrupted,
    /// The operation would block.
    WouldBlock,
    /// The operation timed out.
    TimedOut,
    /// The resource is busy.
    ResourceBusy,
    /// A quota was exceeded.
    QuotaExceeded,
    /// Permission was denied.
    PermissionDenied,
    /// The entity was not found.
    NotFound,
    /// The path is read-only.
    ReadOnlyFilesystem,
    /// The reading end of a pipe was closed.
    BrokenPipe,
    /// Any other category.
    Other,
}

#[verifier::external_type_specification]
#[verifier::external_body]
pub struct ExIoError(std::io::Error);

/// Operating-system category of an I/O error (`std::io::Error::kind`).
#[verifier::external_body]
pub(crate) fn os_error_kind(err: &std::io::Error) -> OsErrorKind {
    match err.kind() {
        std::io::ErrorKind::StorageFull => OsErrorKind::StorageFull,
        std::io::ErrorKind::Interrupted => OsErrorKind::Interrupted,
        std::io::ErrorKind::WouldBlock => OsErrorKind::WouldBlock,
        std::io::ErrorKind::TimedOut => OsErrorKind::TimedOut,
        std::io::ErrorKind::ResourceBusy => OsErrorKind::ResourceBusy,
        std::io::ErrorKind::QuotaExceeded => OsErrorKind::QuotaExceeded,
        std::io::ErrorKind::PermissionDenied => OsErrorKind::PermissionDenied,
        std::io::ErrorKind::NotFound => OsErrorKind::NotFound,
        std::io::ErrorKind::ReadOnlyFilesystem => OsErrorKind::ReadOnlyFilesystem,
        std::io::ErrorKind::BrokenPipe => OsErrorKind::BrokenPipe,
        _ => OsErrorKind::Other,
    }
}

/// Cause class of an operating-system error category: only conditions that can
/// clear by waiting are transient; unknown categories stop.
pub open spec fn cause_of_kind(k: OsErrorKind) -> IoCause {
    match k {
        OsErrorKind::StorageFull | OsErrorKind::Interrupted | OsErrorKind::WouldBlock
        | OsErrorKind::TimedOut | OsErrorKind::ResourceBusy | OsErrorKind::QuotaExceeded => {
            IoCause::Transient
        },
        _ => IoCause::Permanent,
    }
}

impl IoCause {
    /// Classify an operating-system error category by whether waiting could help.
    pub fn of_kind(k: OsErrorKind) -> (r: IoCause)
        ensures
            r == cause_of_kind(k),
    {
        match k {
            OsErrorKind::StorageFull | OsErrorKind::Interrupted | OsErrorKind::WouldBlock
            | OsErrorKind::TimedOut | OsErrorKind::ResourceBusy | OsErrorKind::QuotaExceeded => {
                IoCause::Transient
            },
            _ => IoCause::Permanent,
        }
    }

    /// Classify an OS error by whether waiting could plausibly help.
    ///
    /// The category is read from the opaque `std::io::Error` and classified by
    /// [`IoCause::of_kind`], whose contract is exact; which category the error
    /// carries is not stated, so the result is only known to be the class of
    /// some category.
    pub fn of(err: &std::io::Error) -> (r: IoCause)
        ensures
            exists|k: OsErrorKind| r == cause_of_kind(k),
    {
        let k = os_error_kind(err);
        IoCause::of_kind(k)
    }

    /// True when another attempt is worth making.
    pub fn retryable(self) -> (r: bool)
        ensures
            r == (self == IoCause::Transient),
    {
        match self {
            IoCause::Transient => true,
            IoCause::Permanent => false,
        }
    }
}

} // verus!
