//! The application error: a catalogue entry plus its derived kind and wire text.

use vstd::prelude::*;

use super::classify::{detail_kind, detail_retryable};
use super::detail::{same_detail, ErrorDetail};
use super::kind::{kind_exit_code, kind_retry_kind, kind_retryable, ErrorKind};
use super::render_en::{en_text, render_en};
use super::render_pt_br::{pt_br_text, render_pt_br};
use super::suggestion::Suggestion;
use super::vocab::{cause_of_kind, IoOp, OsErrorKind};
use crate::i18n::Locale;
use crate::retry::RetryKind;

verus! {

/// Application error with structured kind for agents.
///
/// The kind and the English wire message are derived from the catalogue entry,
/// so one failure can never be reported as two different kinds. The optional
/// source is the text of the lower-level cause; it never enters the message.
#[derive(Debug)]
pub struct AppError {
    kind: ErrorKind,
    message: String,
    detail: ErrorDetail,
    retry_after_secs: Option<u64>,
    source: Option<String>,
}

impl Clone for AppError {
    fn clone(&self) -> (r: Self)
        ensures
            r.kind_of() == self.kind_of(),
            r.message_of() == self.message_of(),
            same_detail(r.detail_of(), self.detail_of()),
            r.retry_after_of() == self.retry_after_of(),
            r.source_of() == self.source_of(),
            self.wf() ==> r.wf(),
    {
        let detail = self.detail.clone();
        proof {
            super::laws::lemma_same_detail_agrees(detail, self.detail);
        }
        AppError {
            kind: self.kind,
            message: self.message.clone(),
            detail,
            retry_after_secs: self.retry_after_secs,
            source: match &self.source {
                Some(s) => Some(s.clone()),
                None => None,
            },
        }
    }
}

/// Result alias for library operations.
pub type AppResult<T> = Result<T, AppError>;

impl AppError {
    /// Canonical kind carried by the error.
    pub closed spec fn kind_of(self) -> ErrorKind {
        self.kind
    }

    /// Technical English message (the JSON wire field).
    pub closed spec fn message_of(self) -> Seq<char> {
        self.message@
    }

    /// Catalogue entry the error was built from.
    pub closed spec fn detail_of(self) -> ErrorDetail {
        self.detail
    }

    /// Retry-After hint in seconds, when one was attached.
    pub closed spec fn retry_after_of(self) -> Option<u64> {
        self.retry_after_secs
    }

    /// Text of the lower-level cause, when one was attached.
    pub closed spec fn source_of(self) -> Option<Seq<char>> {
        match self.source {
            Some(s) => Some(s@),
            None => None,
        }
    }

    /// The kind and the message are those its catalogue entry derives.
    pub open spec fn wf(self) -> bool {
        &&& self.kind_of() == detail_kind(self.detail_of())
        &&& self.message_of() == en_text(self.detail_of())
    }

    /// Build an error from the typed catalogue.
    pub fn of(detail: ErrorDetail) -> (r: Self)
        ensures
            r.wf(),
            r.detail_of() == detail,
            r.kind_of() == detail_kind(detail),
            r.message_of() == en_text(detail),
            r.retry_after_of() is None,
            r.source_of() is None,
    {
        let kind = detail.kind();
        let message = render_en(&detail);
        AppError { kind, message, detail, retry_after_secs: None, source: None }
    }

    /// [`AppError::of`] with the text of a preserved lower-level cause.
    pub fn of_with_source(detail: ErrorDetail, source: &str) -> (r: Self)
        ensures
            r.wf(),
            r.detail_of() == detail,
            r.kind_of() == detail_kind(detail),
            r.message_of() == en_text(detail),
            r.retry_after_of() is None,
            r.source_of() == Some(source@),
    {
        let kind = detail.kind();
        let message = render_en(&detail);
        AppError {
            kind,
            message,
            detail,
            retry_after_secs: None,
            source: Some(source.to_owned()),
        }
    }

    /// Build an error from a kind and free English text.
    pub fn new(kind: ErrorKind, message: &str) -> (r: Self)
        ensures
            r.wf(),
            r.kind_of() == kind,
            r.message_of() == message@,
            r.detail_of() matches ErrorDetail::Message { kind: k, text } && k == kind && text@
                == message@,
            r.retry_after_of() is None,
            r.source_of() is None,
    {
        AppError::of(ErrorDetail::Message { kind, text: message.to_owned() })
    }

    /// [`AppError::new`] with the text of a preserved lower-level cause.
    pub fn with_source(kind: ErrorKind, message: &str, source: &str) -> (r: Self)
        ensures
            r.wf(),
            r.kind_of() == kind,
            r.message_of() == message@,
            r.detail_of() matches ErrorDetail::Message { kind: k, text } && k == kind && text@
                == message@,
            r.retry_after_of() is None,
            r.source_of() == Some(source@),
    {
        AppError::of_with_source(ErrorDetail::Message { kind, text: message.to_owned() }, source)
    }

    /// Render this error in `locale`, for human stderr.
    pub fn localized(&self, locale: Locale) -> (r: String)
        ensures
            r@ == match locale {
                Locale::En => self.message_of(),
                Locale::PtBr => pt_br_text(self.detail_of()),
            },
    {
        match locale {
            Locale::PtBr => render_pt_br(&self.detail),
            Locale::En => self.message.clone(),
        }
    }

    /// Attach Retry-After seconds (HTTP 429 / 503).
    pub fn with_retry_after(self, secs: u64) -> (r: Self)
        ensures
            r.kind_of() == self.kind_of(),
            r.message_of() == self.message_of(),
            r.detail_of() == self.detail_of(),
            r.source_of() == self.source_of(),
            r.retry_after_of() == Some(secs),
    {
        AppError {
            kind: self.kind,
            message: self.message,
            detail: self.detail,
            retry_after_secs: Some(secs),
            source: self.source,
        }
    }

    /// SIGINT cancel.
    pub fn interrupted() -> (r: Self)
        ensures
            r.wf(),
            r.detail_of() == ErrorDetail::Interrupted,
            r.kind_of() == ErrorKind::Interrupted,
    {
        Self::of(ErrorDetail::Interrupted)
    }

    /// SIGTERM cancel.
    pub fn terminated() -> (r: Self)
        ensures
            r.wf(),
            r.detail_of() == ErrorDetail::Terminated,
            r.kind_of() == ErrorKind::Terminated,
    {
        Self::of(ErrorDetail::Terminated)
    }

    /// stdout closed by the reader (pipe consumer exited).
    pub fn broken_pipe() -> (r: Self)
        ensures
            r.wf(),
            r.detail_of() == ErrorDetail::BrokenPipe,
            r.kind_of() == ErrorKind::BrokenPipe,
    {
        Self::of(ErrorDetail::BrokenPipe)
    }

    /// Returns the canonical error kind.
    pub fn kind(&self) -> (r: ErrorKind)
        ensures
            r == self.kind_of(),
    {
        self.kind
    }

    /// Typed catalogue entry this error carries.
    pub fn detail(&self) -> (r: &ErrorDetail)
        ensures
            *r == self.detail_of(),
    {
        &self.detail
    }

    /// Returns the technical English message.
    pub fn message(&self) -> (r: &str)
        ensures
            r@ == self.message_of(),
    {
        self.message.as_str()
    }

    /// Returns Retry-After seconds when present.
    pub fn retry_after_secs(&self) -> (r: Option<u64>)
        ensures
            r == self.retry_after_of(),
    {
        self.retry_after_secs
    }

    /// Text of the lower-level cause, when present.
    pub fn source(&self) -> (r: Option<&str>)
        ensures
            match r {
                Some(s) => self.source_of() == Some(s@),
                None => self.source_of() is None,
            },
    {
        match &self.source {
            Some(s) => Some(s.as_str()),
            None => None,
        }
    }

    /// The display text of the error: the English message alone, never the cause.
    pub fn to_string(&self) -> (r: String)
        ensures
            r@ == self.message_of(),
    {
        self.message.clone()
    }

    /// Whether an agent may retry the same invocation after backoff; for
    /// filesystem failures the OS cause decides.
    pub fn retryable(&self) -> (r: bool)
        ensures
            r == detail_retryable(self.detail_of()),
    {
        self.detail.retryable()
    }

    /// The catalogue entry, consuming the error.
    pub fn into_detail(self) -> (r: ErrorDetail)
        ensures
            r == self.detail_of(),
    {
        self.detail
    }

    /// Ranked `--suggest` alternatives carried by this failure, if any.
    pub fn suggestions(&self) -> (r: Option<&[Suggestion]>)
        ensures
            match self.detail_of() {
                ErrorDetail::WithSuggestions { suggestions, .. } => r matches Some(s) && s@
                    == suggestions@,
                _ => r is None,
            },
    {
        match &self.detail {
            ErrorDetail::WithSuggestions { suggestions, .. } => Some(suggestions.as_slice()),
            _ => None,
        }
    }

    /// Alias of [`AppError::retryable`].
    pub fn is_retryable(&self) -> (r: bool)
        ensures
            r == detail_retryable(self.detail_of()),
    {
        self.retryable()
    }

    /// Permanent for agent auto-retry (complement of [`AppError::is_retryable`]).
    pub fn is_permanent(&self) -> (r: bool)
        ensures
            r == !detail_retryable(self.detail_of()),
    {
        !self.retryable()
    }

    /// Detailed retry category.
    pub fn retry_kind(&self) -> (r: RetryKind)
        ensures
            r == kind_retry_kind(self.kind_of()),
    {
        self.kind.retry_kind()
    }

    /// Process exit code of this error.
    pub fn exit_code(&self) -> (r: u8)
        ensures
            r == kind_exit_code(self.kind_of()),
    {
        self.kind.exit_code()
    }

    /// Map a remote HTTP status to a domain error.
    ///
    /// `body_hint` must be a short, non-sensitive context label.
    pub fn from_http_status(status: u16, body_hint: &str) -> (r: Self)
        ensures
            r.wf(),
            r.detail_of() matches ErrorDetail::HttpStatus { status: s, hint } && s == status
                && hint@ == body_hint@,
            r.retry_after_of() is None,
    {
        Self::of(ErrorDetail::HttpStatus { status, hint: body_hint.to_owned() })
    }
}

/// Text of an I/O error (`Display` of `std::io::Error`).
#[verifier::external_body]
pub(crate) fn io_error_text(err: &std::io::Error) -> String {
    err.to_string()
}

/// Map a filesystem failure onto the catalogue, keeping the path that failed
/// and the error's text as the cause.
pub fn io_at(op: IoOp, path: &str, err: &std::io::Error) -> (r: AppError)
    ensures
        r.wf(),
        exists|k: OsErrorKind|
            r.detail_of() matches ErrorDetail::Io { op: o, path: Some(p), cause } && o == op && p@
                == path@ && cause == #[trigger] cause_of_kind(k),
        r.source_of() is Some,
{
    let detail = ErrorDetail::io(op, Some(path.to_owned()), err);
    let text = io_error_text(err);
    AppError::of_with_source(detail, text.as_str())
}

} // verus!
