//! Validated crates.io / stdlib crate name.

use vstd::prelude::*;

use crate::config::MAX_CRATE_NAME_CHARS;
use crate::error::app_error::AppError;
use crate::error::kind::ErrorKind;
use crate::text::{
    chars_of, dec, eq_str, lemma_trim_noop, push_chars, push_dec, push_str, string_of, trim,
    trim_chars,
};

verus! {

/// ASCII letter.
pub open spec fn is_ascii_alpha(c: char) -> bool {
    ('a' <= c && c <= 'z') || ('A' <= c && c <= 'Z')
}

/// ASCII letter or digit.
pub open spec fn is_ascii_alnum(c: char) -> bool {
    is_ascii_alpha(c) || ('0' <= c && c <= '9')
}

/// Character of the crates.io name charset `[a-zA-Z0-9_-]`.
pub open spec fn is_crate_name_char(c: char) -> bool {
    is_ascii_alnum(c) || c == '_' || c == '-'
}

/// The crate-name pattern `^[a-zA-Z][a-zA-Z0-9_-]*$`.
pub open spec fn crate_name_shape(s: Seq<char>) -> bool {
    &&& s.len() > 0
    &&& is_ascii_alpha(s[0])
    &&& forall|i: int| 0 <= i < s.len() ==> is_crate_name_char(#[trigger] s[i])
}

/// An accepted (already trimmed) crate name: non-empty, within the length
/// limit, and matching the crate-name pattern.
pub open spec fn valid_crate_name(s: Seq<char>) -> bool {
    s.len() > 0 && s.len() <= MAX_CRATE_NAME_CHARS && crate_name_shape(s)
}

/// Message of the error that rejects the trimmed name `t`.
pub open spec fn crate_name_error(t: Seq<char>) -> Seq<char> {
    if t.len() == 0 {
        "crate name is empty"@
    } else if t.len() > MAX_CRATE_NAME_CHARS {
        "crate name exceeds "@ + dec(MAX_CRATE_NAME_CHARS as nat) + " characters"@
    } else {
        "invalid crate name '"@ + t + "'"@
    }
}

/// A standard library crate documented on `doc.rust-lang.org`.
pub open spec fn stdlib_name(s: Seq<char>) -> bool {
    s == "std"@ || s == "core"@ || s == "alloc"@
}

/// `e` is a well-formed invalid-input error with the given message.
pub open spec fn invalid_input_error(e: AppError, message: Seq<char>) -> bool {
    &&& e.wf()
    &&& e.kind_of() == ErrorKind::InvalidInput
    &&& e.message_of() == message
}

/// True when `name` is a Rust standard library crate (`std` / `core` / `alloc`).
pub fn is_stdlib_name(name: &str) -> (r: bool)
    ensures
        r == stdlib_name(name@),
{
    let v = chars_of(name);
    eq_str(v.as_slice(), "std") || eq_str(v.as_slice(), "core") || eq_str(v.as_slice(), "alloc")
}

pub(crate) fn is_ascii_alpha_exec(c: char) -> (r: bool)
    ensures
        r == is_ascii_alpha(c),
{
    ('a' <= c && c <= 'z') || ('A' <= c && c <= 'Z')
}

pub(crate) fn is_ascii_alnum_exec(c: char) -> (r: bool)
    ensures
        r == is_ascii_alnum(c),
{
    is_ascii_alpha_exec(c) || ('0' <= c && c <= '9')
}

fn crate_name_shape_exec(v: &[char]) -> (r: bool)
    ensures
        r == crate_name_shape(v@),
{
    if v.len() == 0 || !is_ascii_alpha_exec(v[0]) {
        return false;
    }
    let mut i: usize = 0;
    while i < v.len()
        invariant
            0 <= i <= v@.len(),
            forall|k: int| 0 <= k < i ==> is_crate_name_char(#[trigger] v@[k]),
        decreases v@.len() - i,
    {
        let c = v[i];
        if !(is_ascii_alnum_exec(c) || c == '_' || c == '-') {
            return false;
        }
        i = i + 1;
    }
    true
}

/// Validated crates.io / stdlib crate name.
#[derive(Debug, PartialEq, Eq, Hash)]
pub struct CrateName(String);

impl View for CrateName {
    type V = Seq<char>;

    closed spec fn view(&self) -> Seq<char> {
        self.0@
    }
}

impl Clone for CrateName {
    fn clone(&self) -> (r: Self)
        ensures
            r@ == self@,
    {
        CrateName(self.0.clone())
    }
}

impl CrateName {
    /// Every constructed name is a valid, trimmed crate name.
    pub open spec fn wf(&self) -> bool {
        valid_crate_name(self@)
    }

    /// Parses and validates a crate name (trim, length, charset).
    pub fn parse(name: &str) -> (r: Result<Self, AppError>)
        ensures
            match r {
                Ok(n) => valid_crate_name(trim(name@)) && n@ == trim(name@) && n.wf(),
                Err(e) => !valid_crate_name(trim(name@)) && invalid_input_error(
                    e,
                    crate_name_error(trim(name@)),
                ),
            },
    {
        let v = chars_of(name);
        let t = trim_chars(v.as_slice());
        if t.len() == 0 {
            return Err(AppError::new(ErrorKind::InvalidInput, "crate name is empty"));
        }
        if t.len() > MAX_CRATE_NAME_CHARS {
            let mut m = String::new();
            push_str(&mut m, "crate name exceeds ");
            push_dec(&mut m, MAX_CRATE_NAME_CHARS as u64);
            push_str(&mut m, " characters");
            return Err(AppError::new(ErrorKind::InvalidInput, m.as_str()));
        }
        if !crate_name_shape_exec(t.as_slice()) {
            let mut m = String::new();
            push_str(&mut m, "invalid crate name '");
            push_chars(&mut m, t.as_slice());
            push_str(&mut m, "'");
            return Err(AppError::new(ErrorKind::InvalidInput, m.as_str()));
        }
        Ok(CrateName(string_of(t.as_slice())))
    }

    /// Borrow the validated name.
    pub fn as_str(&self) -> (r: &str)
        ensures
            r@ == self@,
    {
        self.0.as_str()
    }

    /// True for `std` / `core` / `alloc` (docs on doc.rust-lang.org).
    pub fn is_stdlib(&self) -> (r: bool)
        ensures
            r == stdlib_name(self@),
    {
        is_stdlib_name(self.as_str())
    }
}

/// A valid name re-parses to itself: it is already trimmed, so parsing is
/// idempotent on its own output.
pub proof fn lemma_crate_name_reparses(s: Seq<char>)
    requires
        valid_crate_name(s),
    ensures
        trim(s) == s,
        valid_crate_name(trim(s)),
{
    assert(is_crate_name_char(s[0]));
    assert(is_crate_name_char(s[s.len() - 1]));
    assert(s.last() == s[s.len() - 1]);
    lemma_trim_noop(s);
}

} // verus!
