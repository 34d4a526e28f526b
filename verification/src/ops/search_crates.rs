//! `search-crates`: how the positional query relates to a page token.

use vstd::prelude::*;

verus! {

/// Whether a `--page-token` already carries the query (`q=…`): crates.io
/// `next_page` tokens are query strings, so a token holding `=` makes an empty
/// positional query acceptable. Trimming the token and stripping its leading
/// `?` characters never removes an `=`, so the answer is whether it holds one.
pub fn page_token_carries_query(token: Option<&str>) -> (r: bool)
    ensures
        r == (token matches Some(t) && t@.contains('=')),
{
    match token {
        None => false,
        Some(t) => {
            let v = crate::text::chars_of(t);
            let mut i: usize = 0;
            while i < v.len()
                invariant
                    0 <= i <= v@.len(),
                    v@ == t@,
                    token == Some(t),
                    forall|j: int| 0 <= j < i ==> v@[j] != '=',
                decreases v@.len() - i,
            {
                if v[i] == '=' {
                    proof {
                        assert(t@[i as int] == '=');
                    }
                    return true;
                }
                i = i + 1;
            }
            false
        },
    }
}

} // verus!
