//! Response body budget decisions and UTF-8 decoding.

use vstd::prelude::*;
use vstd::utf8::{decode_utf8 as utf8_decoded, valid_utf8};

use crate::config::HARD_MAX_BODY_BYTES;
use crate::error::app_error::AppError;
use crate::error::detail::ErrorDetail;

verus! {

/// The body without a leading UTF-8 byte-order mark.
pub open spec fn strip_bom(b: Seq<u8>) -> Seq<u8> {
    if b.len() >= 3 && b[0] == 0xEFu8 && b[1] == 0xBBu8 && b[2] == 0xBFu8 {
        b.skip(3)
    } else {
        b
    }
}

/// `std::str::from_utf8`, with the error's `Display` text; the contract claims
/// only what its documentation states: success exactly on valid UTF-8, and then
/// the decoded text.
#[verifier::external_body]
fn utf8_text(bytes: &[u8]) -> (r: Result<String, String>)
    ensures
        match r {
            Ok(s) => valid_utf8(bytes@) && s@ == utf8_decoded(bytes@),
            Err(_) => !valid_utf8(bytes@),
        },
{
    match std::str::from_utf8(bytes) {
        Ok(s) => Ok(s.to_string()),
        Err(e) => Err(e.to_string()),
    }
}

/// Decode a body as UTF-8, stripping a leading UTF-8 BOM.
pub fn decode_utf8(body: &[u8]) -> (r: Result<String, AppError>)
    ensures
        ({
            let b = strip_bom(body@);
            match r {
                Ok(s) => valid_utf8(b) && s@ == utf8_decoded(b),
                Err(e) => !valid_utf8(b) && e.wf() && e.detail_of() == ErrorDetail::BodyNotUtf8
                    && e.source_of() is Some,
            }
        }),
{
    let start: usize = if body.len() >= 3 && body[0] == 0xEFu8 && body[1] == 0xBBu8 && body[2]
        == 0xBFu8 {
        3
    } else {
        0
    };
    let mut bytes: Vec<u8> = Vec::new();
    let mut i: usize = start;
    while i < body.len()
        invariant
            start <= i <= body@.len(),
            bytes@ == body@.subrange(start as int, i as int),
        decreases body@.len() - i,
    {
        bytes.push(body[i]);
        i = i + 1;
    }
    proof {
        assert(bytes@ == strip_bom(body@));
    }
    match utf8_text(bytes.as_slice()) {
        Ok(s) => Ok(s),
        Err(m) => Err(AppError::of_with_source(ErrorDetail::BodyNotUtf8, m.as_str())),
    }
}

/// The byte budget actually applied: the operator's, never above the product ceiling.
pub open spec fn effective_body_budget(max_bytes: u64) -> u64 {
    if max_bytes <= HARD_MAX_BODY_BYTES { max_bytes } else { HARD_MAX_BODY_BYTES }
}

/// Before streaming: fail when the announced length is already over budget;
/// otherwise the capacity to pre-reserve (the announced length within budget,
/// or nothing when unknown).
pub fn body_capacity(content_length: Option<u64>, max_bytes: u64) -> (r: Result<u64, AppError>)
    ensures
        ({
            let cap = effective_body_budget(max_bytes);
            match content_length {
                Some(n) => if n > cap {
                    r matches Err(e) && e.wf() && e.detail_of() == (ErrorDetail::BodyOverBudget {
                        max_bytes: cap,
                    })
                } else {
                    r == Ok::<u64, AppError>(n)
                },
                None => r == Ok::<u64, AppError>(0),
            }
        }),
{
    let cap = if max_bytes <= HARD_MAX_BODY_BYTES { max_bytes } else { HARD_MAX_BODY_BYTES };
    match content_length {
        Some(n) => {
            if n > cap {
                Err(AppError::of(ErrorDetail::BodyOverBudget { max_bytes: cap }))
            } else {
                Ok(n)
            }
        },
        None => Ok(0),
    }
}

/// While streaming: accept a chunk only when the running total stays within budget.
pub fn accept_chunk(received: u64, chunk_len: u64, max_bytes: u64) -> (r: Result<(), AppError>)
    ensures
        ({
            let cap = effective_body_budget(max_bytes);
            if received + chunk_len > cap {
                r matches Err(e) && e.wf() && e.detail_of() == (ErrorDetail::BodyOverBudget {
                    max_bytes: cap,
                })
            } else {
                r is Ok
            }
        }),
{
    let cap = if max_bytes <= HARD_MAX_BODY_BYTES { max_bytes } else { HARD_MAX_BODY_BYTES };
    let total: u128 = received as u128 + chunk_len as u128;
    if total > cap as u128 {
        Err(AppError::of(ErrorDetail::BodyOverBudget { max_bytes: cap }))
    } else {
        Ok(())
    }
}

/// A cached body is served only within the same budget as a network one.
pub fn check_cached_body(len: u64, max_bytes: u64) -> (r: Result<(), AppError>)
    ensures
        ({
            let cap = effective_body_budget(max_bytes);
            if len > cap {
                r matches Err(e) && e.wf() && e.detail_of() == (ErrorDetail::CachedBodyOverBudget {
                    max_bytes: cap,
                })
            } else {
                r is Ok
            }
        }),
{
    let cap = if max_bytes <= HARD_MAX_BODY_BYTES { max_bytes } else { HARD_MAX_BODY_BYTES };
    if len > cap {
        Err(AppError::of(ErrorDetail::CachedBodyOverBudget { max_bytes: cap }))
    } else {
        Ok(())
    }
}

} // verus!
