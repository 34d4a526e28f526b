//! Validated search query string.

use vstd::prelude::*;

use super::regex::{hostile_text_char, is_hostile_text_char};
use crate::config::MAX_QUERY_CHARS;
use crate::error::app_error::AppError;
use crate::error::detail::ErrorDetail;
use crate::error::vocab::Subject;
use crate::text::{chars_of, string_of, trim, trim_chars};

verus! {

/// Catalogue entry rejecting the trimmed query `q`, if any.
pub open spec fn query_rejection(q: Seq<char>, allow_empty: bool) -> Option<ErrorDetail> {
    if !allow_empty && q.len() == 0 {
        Some(ErrorDetail::Empty { subject: Subject::SearchQuery })
    } else if q.len() > MAX_QUERY_CHARS {
        Some(ErrorDetail::TooLong { subject: Subject::SearchQuery, limit: MAX_QUERY_CHARS })
    } else if exists|i: int| 0 <= i < q.len() && hostile_text_char(#[trigger] q[i]) {
        Some(ErrorDetail::ControlCharacters { subject: Subject::SearchQuery })
    } else {
        None
    }
}

/// Validated search query string.
#[derive(Debug, PartialEq, Eq, Hash)]
pub struct SearchQuery(String);

impl View for SearchQuery {
    type V = Seq<char>;

    closed spec fn view(&self) -> Seq<char> {
        self.0@
    }
}

impl SearchQuery {
    /// Parses a search query. When `allow_empty` is true, whitespace-only
    /// becomes an empty query (list-all).
    pub fn parse(query: &str, allow_empty: bool) -> (r: Result<Self, AppError>)
        ensures
            match query_rejection(trim(query@), allow_empty) {
                None => r matches Ok(q) && q@ == trim(query@),
                Some(d) => r matches Err(e) && e.wf() && e.detail_of() == d,
            },
    {
        let v = chars_of(query);
        let q = trim_chars(v.as_slice());
        if !allow_empty && q.len() == 0 {
            return Err(AppError::of(ErrorDetail::Empty { subject: Subject::SearchQuery }));
        }
        if q.len() > MAX_QUERY_CHARS {
            return Err(
                AppError::of(
                    ErrorDetail::TooLong { subject: Subject::SearchQuery, limit: MAX_QUERY_CHARS },
                ),
            );
        }
        let mut i: usize = 0;
        while i < q.len()
            invariant
                0 <= i <= q@.len(),
                q@ == trim(query@),
                q@.len() <= MAX_QUERY_CHARS,
                allow_empty || q@.len() > 0,
                forall|k: int| 0 <= k < i ==> !hostile_text_char(#[trigger] q@[k]),
            decreases q@.len() - i,
        {
            if is_hostile_text_char(q[i]) {
                proof {
                    assert(hostile_text_char(q@[i as int]));
                }
                return Err(
                    AppError::of(ErrorDetail::ControlCharacters { subject: Subject::SearchQuery }),
                );
            }
            i = i + 1;
        }
        Ok(SearchQuery(string_of(q.as_slice())))
    }

    /// Borrow the validated query.
    pub fn as_str(&self) -> (r: &str)
        ensures
            r@ == self@,
    {
        self.0.as_str()
    }
}

} // verus!
