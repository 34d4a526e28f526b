//! Text match policy for `search-in-crate`.

use vstd::prelude::*;

use super::crate_name::invalid_input_error;
use crate::error::app_error::AppError;
use crate::error::kind::ErrorKind;
use crate::text::{
    chars_of, contains, is_ws, occurs_at, lower, trim_end, trim_start, contains_exec, eq_str, lower_chars, lower_seq, push_chars, push_str,
    starts_with, starts_with_exec, trim, trim_chars,
};

verus! {

/// Text match policy for `search-in-crate`.
#[derive(Debug, Clone, Copy, PartialEq, Eq, Structural)]
pub enum MatchMode {
    /// Leaf name equals query (case-insensitive).
    Exact,
    /// Exact leaf or leaf starts with query — product default.
    Prefix,
    /// Substring match on full path (legacy / opt-in).
    Substring,
}

impl Default for MatchMode {
    fn default() -> (r: Self)
        ensures
            r == MatchMode::Prefix,
    {
        MatchMode::Prefix
    }
}

/// Stable wire / CLI token of a mode.
pub open spec fn mode_name(m: MatchMode) -> Seq<char> {
    match m {
        MatchMode::Exact => "exact"@,
        MatchMode::Prefix => "prefix"@,
        MatchMode::Substring => "substring"@,
    }
}

/// Mode named by an already trimmed and lowercased token.
pub open spec fn mode_of_token(t: Seq<char>) -> Option<MatchMode> {
    if t == "exact"@ {
        Some(MatchMode::Exact)
    } else if t == "prefix"@ {
        Some(MatchMode::Prefix)
    } else if t == "substring"@ || t == "contains"@ || t == "substr"@ {
        Some(MatchMode::Substring)
    } else {
        None
    }
}

/// Last `::`-separated segment of a path (the whole path when it has no `::`).
pub open spec fn leaf_of(s: Seq<char>) -> Seq<char>
    decreases s.len(),
{
    if s.len() < 2 {
        s
    } else if s[s.len() - 1] == ':' && s[s.len() - 2] == ':' {
        Seq::empty()
    } else {
        leaf_of(s.drop_last()).push(s.last())
    }
}

/// Rank of a hit `name` for `query` under a mode (lower is better; `None` is
/// no match). Comparison is ASCII case-insensitive on the trimmed query; an
/// empty query matches everything with rank 0.
pub open spec fn score_of(m: MatchMode, name: Seq<char>, query: Seq<char>) -> Option<u8> {
    let q0 = trim(query);
    if q0.len() == 0 {
        Some(0)
    } else {
        let q = lower_seq(q0);
        let nl = lower_seq(name);
        let leaf = leaf_of(nl);
        let exact_leaf = leaf == q;
        let prefix_leaf = starts_with(leaf, q);
        let exact_path = nl == q;
        let contained = contains(nl, q) || contains(leaf, q);
        match m {
            MatchMode::Exact => if exact_leaf {
                Some(0)
            } else if exact_path {
                Some(1)
            } else {
                None
            },
            MatchMode::Prefix => if exact_leaf {
                Some(0)
            } else if prefix_leaf {
                Some(1)
            } else if exact_path {
                Some(2)
            } else {
                None
            },
            MatchMode::Substring => if exact_leaf {
                Some(0)
            } else if prefix_leaf {
                Some(1)
            } else if exact_path {
                Some(2)
            } else if contained {
                Some(3)
            } else {
                None
            },
        }
    }
}

fn leaf_exec(v: &[char]) -> (r: Vec<char>)
    ensures
        r@ == leaf_of(v@),
{
    let n = v.len();
    let mut i: usize = n;
    proof {
        assert(v@.take(n as int) == v@);
        assert(v@.skip(n as int) == Seq::<char>::empty());
        assert(leaf_of(v@) == leaf_of(v@.take(n as int)) + v@.skip(n as int));
    }
    while i >= 2 && !(v[i - 1] == ':' && v[i - 2] == ':')
        invariant
            0 <= i <= n,
            n == v@.len(),
            leaf_of(v@) == leaf_of(v@.take(i as int)) + v@.skip(i as int),
        decreases i,
    {
        proof {
            let t = v@.take(i as int);
            assert(t.drop_last() == v@.take(i - 1));
            assert(t.last() == v@[i - 1]);
            assert(seq![v@[i - 1]] + v@.skip(i as int) == v@.skip(i - 1));
            assert(leaf_of(t) == leaf_of(v@.take(i - 1)).push(v@[i - 1]));
            assert(leaf_of(v@.take(i - 1)).push(v@[i - 1]) + v@.skip(i as int) == leaf_of(
                v@.take(i - 1),
            ) + v@.skip(i - 1));
        }
        i = i - 1;
    }
    let start: usize = if i >= 2 {
        proof {
            assert(leaf_of(v@.take(i as int)) == Seq::<char>::empty());
            assert(Seq::<char>::empty() + v@.skip(i as int) == v@.skip(i as int));
        }
        i
    } else {
        proof {
            assert(leaf_of(v@.take(i as int)) == v@.take(i as int));
            assert(v@.take(i as int) + v@.skip(i as int) == v@);
            assert(v@.skip(0) == v@);
        }
        0
    };
    let mut r: Vec<char> = Vec::new();
    let mut k: usize = start;
    while k < n
        invariant
            start <= k <= n,
            n == v@.len(),
            r@ == v@.subrange(start as int, k as int),
        decreases n - k,
    {
        r.push(v[k]);
        k = k + 1;
    }
    proof {
        assert(r@ == v@.skip(start as int));
    }
    r
}

impl MatchMode {
    /// Stable wire / CLI token.
    pub fn as_str(self) -> (r: &'static str)
        ensures
            r@ == mode_name(self),
    {
        match self {
            Self::Exact => "exact",
            Self::Prefix => "prefix",
            Self::Substring => "substring",
        }
    }

    /// Parse a CLI token (`exact` | `prefix` | `substring`, aliases `contains`
    /// and `substr`), trimmed and ASCII case-insensitive.
    pub fn parse(input: &str) -> (r: Result<Self, AppError>)
        ensures
            ({
                let t = lower_seq(trim(input@));
                match mode_of_token(t) {
                    Some(m) => r == Ok::<MatchMode, AppError>(m),
                    None => r matches Err(e) && invalid_input_error(
                        e,
                        "unknown match mode '"@ + t + "' (expected exact|prefix|substring)"@,
                    ),
                }
            }),
    {
        let v = chars_of(input);
        let tr = trim_chars(v.as_slice());
        let t = lower_chars(tr.as_slice());
        if eq_str(t.as_slice(), "exact") {
            Ok(Self::Exact)
        } else if eq_str(t.as_slice(), "prefix") {
            Ok(Self::Prefix)
        } else if eq_str(t.as_slice(), "substring") || eq_str(t.as_slice(), "contains") || eq_str(
            t.as_slice(),
            "substr",
        ) {
            Ok(Self::Substring)
        } else {
            let mut m = String::new();
            push_str(&mut m, "unknown match mode '");
            push_chars(&mut m, t.as_slice());
            push_str(&mut m, "' (expected exact|prefix|substring)");
            Err(AppError::new(ErrorKind::InvalidInput, m.as_str()))
        }
    }

    /// Score a hit name against the query (lower is better). `None` = no match.
    pub fn score(self, name: &str, query: &str) -> (r: Option<u8>)
        ensures
            r == score_of(self, name@, query@),
    {
        let qv = chars_of(query);
        let q0 = trim_chars(qv.as_slice());
        if q0.len() == 0 {
            return Some(0);
        }
        let q = lower_chars(q0.as_slice());
        let nv = chars_of(name);
        let nl = lower_chars(nv.as_slice());
        let leaf = leaf_exec(nl.as_slice());
        let exact_leaf = leaf.len() == q.len() && starts_with_exec(leaf.as_slice(), q.as_slice());
        proof {
            if leaf@.len() == q@.len() {
                assert(leaf@.take(q@.len() as int) == leaf@);
            }
        }
        let prefix_leaf = starts_with_exec(leaf.as_slice(), q.as_slice());
        let exact_path = nl.len() == q.len() && starts_with_exec(nl.as_slice(), q.as_slice());
        proof {
            if nl@.len() == q@.len() {
                assert(nl@.take(q@.len() as int) == nl@);
            }
        }
        match self {
            Self::Exact => {
                if exact_leaf {
                    Some(0)
                } else if exact_path {
                    Some(1)
                } else {
                    None
                }
            },
            Self::Prefix => {
                if exact_leaf {
                    Some(0)
                } else if prefix_leaf {
                    Some(1)
                } else if exact_path {
                    Some(2)
                } else {
                    None
                }
            },
            Self::Substring => {
                if exact_leaf {
                    Some(0)
                } else if prefix_leaf {
                    Some(1)
                } else if exact_path {
                    Some(2)
                } else if contains_exec(nl.as_slice(), q.as_slice()) || contains_exec(
                    leaf.as_slice(),
                    q.as_slice(),
                ) {
                    Some(3)
                } else {
                    None
                }
            },
        }
    }
}

/// Modes nest: whatever `Exact` accepts, `Prefix` accepts, and `Substring`
/// ranks every hit that `Prefix` accepts exactly as `Prefix` does; an empty
/// query matches every name with rank 0 in every mode.
pub proof fn lemma_modes_nest(name: Seq<char>, query: Seq<char>)
    ensures
        score_of(MatchMode::Exact, name, query) is Some ==> score_of(MatchMode::Prefix, name, query) is Some,
        score_of(MatchMode::Prefix, name, query) is Some ==> score_of(MatchMode::Substring, name, query)
            == score_of(MatchMode::Prefix, name, query),
        score_of(MatchMode::Exact, name, query) is Some ==> score_of(MatchMode::Substring, name, query) is Some,
        trim(query).len() == 0 ==> (score_of(MatchMode::Exact, name, query) == Some(0u8)
            && score_of(MatchMode::Prefix, name, query) == Some(0u8) && score_of(
            MatchMode::Substring,
            name,
            query,
        ) == Some(0u8)),
{
}

/// ASCII lowercasing is idempotent and never changes whether a scalar is
/// whitespace.
proof fn lemma_lower_char(c: char)
    ensures
        lower(lower(c)) == lower(c),
        is_ws(lower(c)) == is_ws(c),
{
}

/// Lowercasing a sequence is idempotent.
proof fn lemma_lower_seq_idempotent(s: Seq<char>)
    ensures
        lower_seq(lower_seq(s)) == lower_seq(s),
{
    assert forall|i: int| 0 <= i < s.len() implies lower_seq(lower_seq(s))[i] == lower_seq(s)[i] by {
        lemma_lower_char(s[i]);
    }
    assert(lower_seq(lower_seq(s)) =~= lower_seq(s));
}

/// Trimming commutes with lowercasing.
proof fn lemma_trim_lower(s: Seq<char>)
    ensures
        trim_start(lower_seq(s)) == lower_seq(trim_start(s)),
        trim(lower_seq(s)) == lower_seq(trim(s)),
    decreases s.len(),
{
    if s.len() > 0 {
        lemma_lower_char(s[0]);
        assert(lower_seq(s).drop_first() =~= lower_seq(s.drop_first()));
        lemma_trim_lower(s.drop_first());
    } else {
        assert(lower_seq(s) =~= s);
    }
    lemma_trim_end_lower(trim_start(s));
}

/// Trimming the end commutes with lowercasing.
proof fn lemma_trim_end_lower(s: Seq<char>)
    ensures
        trim_end(lower_seq(s)) == lower_seq(trim_end(s)),
    decreases s.len(),
{
    if s.len() > 0 {
        lemma_lower_char(s.last());
        assert(lower_seq(s).drop_last() =~= lower_seq(s.drop_last()));
        lemma_trim_end_lower(s.drop_last());
    } else {
        assert(lower_seq(s) =~= s);
    }
}

/// Scores are ranks within each mode's range (`Exact` 0–1, `Prefix` 0–2,
/// `Substring` 0–3) and ignore ASCII case in both the name and the query.
pub proof fn lemma_score_ranges_and_case(m: MatchMode, name: Seq<char>, query: Seq<char>)
    ensures
        score_of(m, name, query) matches Some(x) ==> x <= match m {
            MatchMode::Exact => 1u8,
            MatchMode::Prefix => 2u8,
            MatchMode::Substring => 3u8,
        },
        score_of(m, lower_seq(name), lower_seq(query)) == score_of(m, name, query),
{
    lemma_trim_lower(query);
    lemma_lower_seq_idempotent(trim(query));
    lemma_lower_seq_idempotent(name);
}


/// The leaf of a path is a suffix of it.
proof fn lemma_leaf_is_suffix(s: Seq<char>)
    ensures
        leaf_of(s).len() <= s.len(),
        leaf_of(s) == s.skip(s.len() - leaf_of(s).len()),
    decreases s.len(),
{
    if s.len() < 2 {
        assert(s.skip(0) =~= s);
    } else if s[s.len() - 1] == ':' && s[s.len() - 2] == ':' {
        assert(s.skip(s.len() as int) =~= Seq::<char>::empty());
    } else {
        let d = s.drop_last();
        lemma_leaf_is_suffix(d);
        let k = leaf_of(d).len();
        assert(leaf_of(s) == leaf_of(d).push(s.last()));
        assert(d.skip(d.len() - k).push(s.last()) =~= s.skip(s.len() - (k + 1)));
    }
}

/// What occurs in a suffix occurs in the whole.
proof fn lemma_contains_in_suffix(s: Seq<char>, k: int, q: Seq<char>)
    requires
        0 <= k <= s.len(),
        contains(s.skip(k), q),
    ensures
        contains(s, q),
{
    let i = choose|i: int| occurs_at(s.skip(k), q, i);
    assert(s.subrange(k + i, k + i + q.len()) =~= s.skip(k).subrange(i, i + q.len()));
    assert(occurs_at(s, q, k + i));
}

/// `Substring` finds a non-blank query anywhere in the full path, ignoring
/// ASCII case: a hit is ranked exactly when the lowercased trimmed query
/// occurs in the lowercased name. `Prefix` ranks every name whose leaf
/// starts with the query, and `Exact` every name whose leaf or full path is
/// the query.
pub proof fn lemma_substring_searches_full_path(name: Seq<char>, query: Seq<char>)
    ensures
        score_of(MatchMode::Substring, name, query) is Some <==> (trim(query).len() == 0
            || contains(lower_seq(name), lower_seq(trim(query)))),
        trim(query).len() > 0 && starts_with(
            leaf_of(lower_seq(name)),
            lower_seq(trim(query)),
        ) ==> score_of(MatchMode::Prefix, name, query) is Some,
        trim(query).len() > 0 && (leaf_of(lower_seq(name)) == lower_seq(trim(query)) || lower_seq(
            name,
        ) == lower_seq(trim(query))) ==> score_of(MatchMode::Exact, name, query) is Some,
{
    let q = lower_seq(trim(query));
    let nl = lower_seq(name);
    let leaf = leaf_of(nl);
    lemma_leaf_is_suffix(nl);
    let k = nl.len() - leaf.len();
    if trim(query).len() > 0 {
        if starts_with(leaf, q) {
            assert(leaf.subrange(0, q.len() as int) =~= leaf.take(q.len() as int));
            assert(occurs_at(leaf, q, 0));
            assert(contains(nl.skip(k), q));
            lemma_contains_in_suffix(nl, k, q);
        }
        if leaf == q {
            assert(leaf.subrange(0, q.len() as int) =~= leaf);
            assert(occurs_at(leaf, q, 0));
            assert(contains(nl.skip(k), q));
            lemma_contains_in_suffix(nl, k, q);
        }
        if nl == q {
            assert(nl.subrange(0, q.len() as int) =~= nl);
            assert(occurs_at(nl, q, 0));
        }
        if contains(leaf, q) {
            assert(contains(nl.skip(k), q));
            lemma_contains_in_suffix(nl, k, q);
        }
    }
}


/// Ranks order matches by quality, the same in every mode that accepts them:
/// a leaf equal to the query ranks 0; a leaf that only starts with it ranks 1
/// (in the modes that look at prefixes); a full path equal to it ranks 1 under
/// `Exact` and 2 under `Prefix` and `Substring` when the leaf does not start
/// with it; any other occurrence ranks 3 under `Substring` alone.
pub proof fn lemma_score_ranks(name: Seq<char>, query: Seq<char>)
    ensures
        ({
            let q = lower_seq(trim(query));
            let nl = lower_seq(name);
            let leaf = leaf_of(nl);
            &&& q.len() > 0 && leaf == q ==> score_of(MatchMode::Exact, name, query) == Some(0u8)
                && score_of(MatchMode::Prefix, name, query) == Some(0u8) && score_of(
                MatchMode::Substring,
                name,
                query,
            ) == Some(0u8)
            &&& q.len() > 0 && leaf != q && starts_with(leaf, q) ==> score_of(
                MatchMode::Prefix,
                name,
                query,
            ) == Some(1u8) && score_of(MatchMode::Substring, name, query) == Some(1u8)
            &&& q.len() > 0 && leaf != q && nl == q ==> score_of(MatchMode::Exact, name, query)
                == Some(1u8)
            &&& q.len() > 0 && !starts_with(leaf, q) && nl == q ==> score_of(
                MatchMode::Prefix,
                name,
                query,
            ) == Some(2u8) && score_of(MatchMode::Substring, name, query) == Some(2u8)
            &&& q.len() > 0 && !starts_with(leaf, q) && nl != q && contains(nl, q) ==> score_of(
                MatchMode::Substring,
                name,
                query,
            ) == Some(3u8) && score_of(MatchMode::Prefix, name, query) is None && score_of(
                MatchMode::Exact,
                name,
                query,
            ) is None
        }),
{
    let q = lower_seq(trim(query));
    assert(q.len() == trim(query).len());
    let leaf = leaf_of(lower_seq(name));
    if leaf == q {
        assert(leaf.take(q.len() as int) =~= leaf);
    }
}


/// Every mode's wire token parses back to that mode.
pub proof fn lemma_mode_round_trip(m: MatchMode)
    ensures
        mode_of_token(lower_seq(trim(mode_name(m)))) == Some(m),
{
    reveal_strlit("exact");
    reveal_strlit("prefix");
    reveal_strlit("substring");
    reveal_strlit("contains");
    reveal_strlit("substr");
    assert("exact"@.len() == 5 && "prefix"@.len() == 6 && "substring"@.len() == 9);
    assert("contains"@.len() == 8 && "substr"@.len() == 6);
    let t = mode_name(m);
    crate::text::lemma_trim_noop(t);
    crate::text::lemma_lower_noop(t);
    assert("prefix"@ != "exact"@);
    assert("substring"@ != "exact"@ && "substring"@ != "prefix"@);
}

} // verus!
