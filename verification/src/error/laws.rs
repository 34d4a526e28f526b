//! Properties every failure report keeps, whichever call site built it.

use vstd::prelude::*;

use super::app_error::AppError;
use super::classify::{detail_kind, detail_retryable};
use super::detail::{same_detail, ErrorDetail};
use super::kind::{kind_exit_code, kind_retryable, ErrorKind};
use super::render_en::en_text;
use super::render_pt_br::pt_br_text;
use super::suggestion::{suggestions_text, Suggestion};
use super::vocab::{IoCause, IoOp};
use crate::retry::{status_class, RetryClass};
use crate::text::starts_with;

verus! {

/// The same catalogue entry, however it was copied, decides the same kind,
/// retry answer and texts in both languages.
pub proof fn lemma_same_detail_agrees(a: ErrorDetail, b: ErrorDetail)
    requires
        same_detail(a, b),
    ensures
        detail_kind(a) == detail_kind(b),
        detail_retryable(a) == detail_retryable(b),
        en_text(a) == en_text(b),
        pt_br_text(a) == pt_br_text(b),
    decreases a,
{
    match a {
        ErrorDetail::WithSuggestions { base: x, .. } => match b {
            ErrorDetail::WithSuggestions { base: y, .. } => lemma_same_detail_agrees(*x, *y),
            _ => {},
        },
        _ => {},
    }
}

/// How a remote status is reported: 400 is bad input, 404 not found, 408 a
/// timeout, 429 a rate limit, and the server failures 500, 502, 503 and 504
/// are "unavailable". The kind agrees with the English text, which calls
/// exactly the unavailable statuses "remote unavailable", and every status the
/// request loop retries is one an agent may retry too.
pub proof fn lemma_http_status_kinds(status: u16, hint: String, retry_after: Option<u64>)
    ensures
        ({
            let d = ErrorDetail::HttpStatus { status, hint };
            &&& status == 400 ==> detail_kind(d) == ErrorKind::InvalidInput
            &&& status == 404 ==> detail_kind(d) == ErrorKind::NotFound
            &&& status == 408 ==> detail_kind(d) == ErrorKind::Timeout
            &&& status == 429 ==> detail_kind(d) == ErrorKind::RateLimited
            &&& (status == 500 || status == 502 || status == 503 || status == 504) ==> detail_kind(d)
                == ErrorKind::Unavailable
            &&& !(status == 400 || status == 404 || status == 408 || status == 429 || status == 500
                || status == 502 || status == 503 || status == 504) ==> detail_kind(d)
                == ErrorKind::Network
            &&& detail_kind(d) == ErrorKind::Unavailable <==> starts_with(
                en_text(d),
                "remote unavailable (HTTP "@,
            )
            &&& status_class(status, retry_after) != RetryClass::Permanent ==> kind_retryable(
                detail_kind(d),
            )
        }),
{
    let d = ErrorDetail::HttpStatus { status, hint };
    let p = "remote unavailable (HTTP "@;
    reveal_strlit("remote unavailable (HTTP ");
    reveal_strlit("bad request from remote: ");
    reveal_strlit("resource not found: ");
    reveal_strlit("remote request timeout (HTTP 408): ");
    reveal_strlit("rate limited by remote: ");
    reveal_strlit("unexpected HTTP status ");
    let t = en_text(d);
    if status == 500 || status == 502 || status == 503 || status == 504 {
        assert(t.take(p.len() as int) =~= p);
    } else if status == 400 {
        assert(t[0] == 'b');
    } else if status == 404 {
        assert(t[2] == 's');
    } else if status == 408 {
        assert(t[7] == 'r');
    } else if status == 429 {
        assert(t[1] == 'a');
    } else {
        assert(t[0] == 'u');
    }
    if !(status == 500 || status == 502 || status == 503 || status == 504) {
        assert(!starts_with(t, p)) by {
            if starts_with(t, p) {
                assert(t.take(p.len() as int)[0] == t[0]);
                assert(t.take(p.len() as int)[1] == t[1]);
                assert(t.take(p.len() as int)[2] == t[2]);
                assert(t.take(p.len() as int)[7] == t[7]);
            }
        }
    }
}


/// The JSON wire message of a well-formed error is the English rendering of
/// its catalogue entry, and its kind is the one the entry decides; the
/// Portuguese rendering never reaches the wire.
pub proof fn lemma_wire_message_is_english(e: AppError)
    requires
        e.wf(),
    ensures
        e.message_of() == en_text(e.detail_of()),
        e.kind_of() == detail_kind(e.detail_of()),
{
}

/// Two well-formed errors built from the same catalogue entry cannot disagree:
/// same kind, exit code, wire message and retry answer.
pub proof fn lemma_detail_decides(a: AppError, b: AppError)
    requires
        a.wf(),
        b.wf(),
        a.detail_of() == b.detail_of(),
    ensures
        a.kind_of() == b.kind_of(),
        kind_exit_code(a.kind_of()) == kind_exit_code(b.kind_of()),
        a.message_of() == b.message_of(),
        detail_retryable(a.detail_of()) == detail_retryable(b.detail_of()),
{
}

/// Attaching ranked suggestions never changes the failure: the kind and the
/// retry answer are the base's, and both renderings are the base's followed by
/// the list.
pub proof fn lemma_suggestions_keep_base(base: ErrorDetail, suggestions: Vec<Suggestion>)
    ensures
        ({
            let d = ErrorDetail::WithSuggestions { base: Box::new(base), suggestions };
            &&& detail_kind(d) == detail_kind(base)
            &&& detail_retryable(d) == detail_retryable(base)
            &&& en_text(d) == en_text(base) + "; suggestions: "@ + suggestions_text(suggestions@)
            &&& pt_br_text(d) == pt_br_text(base) + "; sugestões: "@ + suggestions_text(
                suggestions@,
            )
        }),
{
}

/// A filesystem failure is reported as kind `io` and is retryable exactly when
/// its operating-system cause is transient, whatever the operation or path.
pub proof fn lemma_io_retry_follows_cause(op: IoOp, path: Option<String>, cause: IoCause)
    ensures
        detail_kind(ErrorDetail::Io { op, path, cause }) == ErrorKind::Io,
        detail_retryable(ErrorDetail::Io { op, path, cause }) == (cause == IoCause::Transient),
{
}

/// Outside filesystem failures, a kind is permanent for agents exactly when
/// it is not retryable, and the retry answer follows the kind.
pub proof fn lemma_retry_follows_kind(d: ErrorDetail)
    requires
        !(d is Io),
        !(d is WithSuggestions),
    ensures
        detail_retryable(d) == kind_retryable(detail_kind(d)),
{
}

} // verus!
