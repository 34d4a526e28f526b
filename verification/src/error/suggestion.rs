//! The `--suggest` alternative, as data rather than as a sentence.

use vstd::prelude::*;

verus! {

/// One ranked `--suggest` alternative.
#[derive(Debug, PartialEq, Eq)]
pub struct Suggestion {
    /// Item path to retype, without the crate prefix (`option::Option::unwrap`).
    pub path: String,
    /// CLI kind the caller would pass alongside `path` (`method`, `variant`, ...).
    pub kind: String,
}

impl Clone for Suggestion {
    fn clone(&self) -> (r: Self)
        ensures
            r == *self,
    {
        Suggestion { path: self.path.clone(), kind: self.kind.clone() }
    }
}

impl Suggestion {
    /// Build one suggestion from its two parts.
    pub fn new(path: &str, kind: &str) -> (r: Self)
        ensures
            r.path@ == path@,
            r.kind@ == kind@,
    {
        Suggestion { path: path.to_owned(), kind: kind.to_owned() }
    }
}

/// One entry as both languages print it: `path (kind)`.
pub open spec fn suggestion_text(s: Suggestion) -> Seq<char> {
    s.path@ + " ("@ + s.kind@ + ")"@
}

/// Entries joined by `", "`, in rank order.
pub open spec fn join_entries(items: Seq<Suggestion>) -> Seq<char>
    decreases items.len(),
{
    if items.len() == 0 {
        Seq::empty()
    } else if items.len() == 1 {
        suggestion_text(items[0])
    } else {
        join_entries(items.drop_last()) + ", "@ + suggestion_text(items.last())
    }
}

/// The suggestion list as a sentence fragment; an empty list reads `(none)`.
pub open spec fn suggestions_text(items: Seq<Suggestion>) -> Seq<char> {
    if items.len() == 0 {
        "(none)"@
    } else {
        join_entries(items)
    }
}

/// Render a suggestion list the way both languages print it.
pub fn join_suggestions(items: &[Suggestion]) -> (r: String)
    ensures
        r@ == suggestions_text(items@),
{
    if items.len() == 0 {
        return String::from_str("(none)");
    }
    let mut out = String::new();
    let mut i: usize = 0;
    while i < items.len()
        invariant
            0 <= i <= items@.len(),
            items@.len() > 0,
            out@ == join_entries(items@.take(i as int)),
        decreases items@.len() - i,
    {
        let ghost before = out@;
        if i > 0 {
            out.append(", ");
        }
        out.append(items[i].path.as_str());
        out.append(" (");
        out.append(items[i].kind.as_str());
        out.append(")");
        proof {
            let t = items@.take(i + 1);
            assert(t.drop_last() == items@.take(i as int));
            assert(t.last() == items@[i as int]);
            if i == 0 {
                assert(before == Seq::<char>::empty());
                assert(out@ == suggestion_text(items@[0]));
            } else {
                assert(out@ == before + ", "@ + suggestion_text(items@[i as int]));
            }
        }
        i = i + 1;
    }
    proof {
        assert(items@.take(items@.len() as int) == items@);
    }
    out
}

/// Owned copy of a suggestion list, entry for entry.
pub fn copy_suggestions(items: &[Suggestion]) -> (r: Vec<Suggestion>)
    ensures
        r@ == items@,
{
    let mut r: Vec<Suggestion> = Vec::new();
    let mut i: usize = 0;
    while i < items.len()
        invariant
            0 <= i <= items@.len(),
            r@ == items@.take(i as int),
        decreases items@.len() - i,
    {
        r.push(items[i].clone());
        i = i + 1;
        proof {
            assert(r@ == items@.take(i as int));
        }
    }
    proof {
        assert(items@.take(items@.len() as int) == items@);
    }
    r
}

} // verus!
