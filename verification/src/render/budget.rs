//! `max_output_bytes` enforcement: UTF-8-safe truncation and hit-list shrinking.
//!
//! Budgeting always cuts on a structural boundary: a whole hit, or a char
//! boundary inside Markdown.

use vstd::prelude::*;

use crate::config::Config;
use crate::crates_io::SearchCratesData;
use crate::docs_rs::{GetItemData, ReadmeData, SearchInCrateData};
use crate::text::{chars_of, string_of};
use vstd::utf8::{encode_scalar, encode_utf8};

verus! {

/// Bytes of one scalar value in UTF-8 (`char::len_utf8`).
pub open spec fn char_bytes(c: char) -> nat {
    if (c as u32) < 0x80 {
        1
    } else if (c as u32) < 0x800 {
        2
    } else if (c as u32) < 0x10000 {
        3
    } else {
        4
    }
}

/// Bytes of a text in UTF-8 (`str::len`).
pub open spec fn utf8_len(s: Seq<char>) -> nat
    decreases s.len(),
{
    if s.len() == 0 {
        0
    } else {
        char_bytes(s[0]) + utf8_len(s.drop_first())
    }
}

/// Longest prefix of `s` whose UTF-8 encoding fits in `budget` bytes.
pub open spec fn fit_prefix(s: Seq<char>, budget: nat) -> Seq<char>
    decreases s.len(),
{
    if s.len() == 0 || char_bytes(s[0]) > budget {
        Seq::empty()
    } else {
        seq![s[0]] + fit_prefix(s.drop_first(), (budget - char_bytes(s[0])) as nat)
    }
}

/// Text and truncation flag `truncate_output` answers.
pub open spec fn truncated_text(s: Seq<char>, max_bytes: u64) -> (Seq<char>, bool) {
    if max_bytes == 0 {
        (Seq::empty(), true)
    } else if utf8_len(s) <= max_bytes {
        (s, false)
    } else {
        (fit_prefix(s, max_bytes as nat), true)
    }
}

fn char_bytes_exec(c: char) -> (r: u64)
    ensures
        r == char_bytes(c),
{
    let u = c as u32;
    if u < 0x80 {
        1
    } else if u < 0x800 {
        2
    } else if u < 0x10000 {
        3
    } else {
        4
    }
}

/// Truncate UTF-8 text on a char boundary; returns the text and whether it was cut.
pub fn truncate_output(text: &str, max_bytes: u64) -> (r: (String, bool))
    ensures
        r.0@ == truncated_text(text@, max_bytes).0,
        r.1 == truncated_text(text@, max_bytes).1,
{
    if max_bytes == 0 {
        return (String::new(), true);
    }
    let v = chars_of(text);
    let mut out: Vec<char> = Vec::new();
    let mut used: u64 = 0;
    let mut i: usize = 0;
    proof {
        assert(v@.skip(0) == v@);
        assert(Seq::<char>::empty() + fit_prefix(v@, max_bytes as nat) == fit_prefix(v@, max_bytes as nat));
    }
    while i < v.len()
        invariant
            0 <= i <= v@.len(),
            v@ == text@,
            used <= max_bytes,
            used == utf8_len(v@.take(i as int)),
            out@ == v@.take(i as int),
            fit_prefix(v@, max_bytes as nat) == out@ + fit_prefix(v@.skip(i as int), (max_bytes - used) as nat),
            utf8_len(v@) == utf8_len(v@.take(i as int)) + utf8_len(v@.skip(i as int)),
        decreases v@.len() - i,
    {
        let b = char_bytes_exec(v[i]);
        let ghost t = v@.skip(i as int);
        proof {
            assert(t[0] == v@[i as int]);
            assert(t.drop_first() == v@.skip(i + 1));
        }
        if b > max_bytes - used {
            proof {
                assert(fit_prefix(t, (max_bytes - used) as nat) == Seq::<char>::empty());
                assert(out@ + Seq::<char>::empty() == out@);
                assert(utf8_len(t) >= char_bytes(t[0]));
            }
            return (string_of(out.as_slice()), true);
        }
        proof {
            lemma_utf8_len_take_step(v@, i as int);
            assert(out@.push(v@[i as int]) == v@.take(i + 1));
            assert(out@ + (seq![t[0]] + fit_prefix(t.drop_first(), (max_bytes - used - b) as nat))
                == out@.push(v@[i as int]) + fit_prefix(v@.skip(i + 1), (max_bytes - (used + b)) as nat));
        }
        out.push(v[i]);
        used = used + b;
        i = i + 1;
    }
    proof {
        assert(v@.take(i as int) == v@);
        assert(v@.skip(i as int).len() == 0);
    }
    (text.to_owned(), false)
}

/// Splitting a text after `i` scalars splits its byte length, and the next
/// scalar adds its own bytes to the prefix.
proof fn lemma_utf8_len_take_step(s: Seq<char>, i: int)
    requires
        0 <= i < s.len(),
        utf8_len(s) == utf8_len(s.take(i)) + utf8_len(s.skip(i)),
    ensures
        utf8_len(s.take(i + 1)) == utf8_len(s.take(i)) + char_bytes(s[i]),
        utf8_len(s) == utf8_len(s.take(i + 1)) + utf8_len(s.skip(i + 1)),
{
    lemma_utf8_len_push(s.take(i), s[i]);
    assert(s.take(i).push(s[i]) == s.take(i + 1));
    assert(s.skip(i).drop_first() == s.skip(i + 1));
    assert(s.skip(i)[0] == s[i]);
}

/// Appending a scalar adds its bytes.
proof fn lemma_utf8_len_push(s: Seq<char>, c: char)
    ensures
        utf8_len(s.push(c)) == utf8_len(s) + char_bytes(c),
    decreases s.len(),
{
    let t = s.push(c);
    if s.len() > 0 {
        lemma_utf8_len_push(s.drop_first(), c);
        assert(t.drop_first() == s.drop_first().push(c));
        assert(t[0] == s[0]);
        assert(utf8_len(t) == char_bytes(t[0]) + utf8_len(t.drop_first()));
        assert(utf8_len(s) == char_bytes(s[0]) + utf8_len(s.drop_first()));
    } else {
        assert(t.drop_first() == Seq::<char>::empty());
        assert(t[0] == c);
        assert(utf8_len(t) == char_bytes(t[0]) + utf8_len(t.drop_first()));
        assert(utf8_len(Seq::<char>::empty()) == 0);
    }
}

/// Whatever fits is kept, within budget, as a prefix, and as long as possible:
/// the output of truncation never exceeds the budget, is a prefix of the input,
/// and is cut only where the next scalar would not fit.
pub proof fn lemma_truncation_sound(s: Seq<char>, max_bytes: u64)
    ensures
        ({
            let (out, cut) = truncated_text(s, max_bytes);
            &&& utf8_len(out) <= max_bytes
            &&& out.len() <= s.len()
            &&& out == s.take(out.len() as int)
            &&& !cut ==> out == s
            &&& cut && max_bytes > 0 ==> out.len() < s.len() && utf8_len(out) + char_bytes(
                s[out.len() as int],
            ) > max_bytes
        }),
{
    if max_bytes > 0 {
        lemma_fit_prefix(s, max_bytes as nat);
        if utf8_len(s) > max_bytes {
            let out = fit_prefix(s, max_bytes as nat);
            if out.len() == s.len() {
                assert(out == s.take(s.len() as int));
                assert(s.take(s.len() as int) == s);
            }
        } else {
            assert(s.take(s.len() as int) == s);
        }
    }
}

/// The byte count of one scalar is the length of its UTF-8 encoding.
pub proof fn lemma_char_bytes_is_encoding_len(c: char)
    ensures
        char_bytes(c) == encode_scalar(c as u32).len(),
{
}

/// The byte count of a text is the length of its UTF-8 encoding (what
/// `str::len` reports).
pub proof fn lemma_utf8_len_is_encoding_len(s: Seq<char>)
    ensures
        utf8_len(s) == encode_utf8(s).len(),
    decreases s.len(),
{
    if s.len() > 0 {
        lemma_char_bytes_is_encoding_len(s[0]);
        lemma_utf8_len_is_encoding_len(s.drop_first());
    }
}

/// Truncation measures real bytes: the text it keeps never encodes to more
/// than the budget in UTF-8, a text it keeps whole already fits, and a cut
/// text could not take its next scalar without passing the budget.
pub proof fn lemma_truncation_fits_encoded_bytes(s: Seq<char>, max_bytes: u64)
    ensures
        ({
            let (out, cut) = truncated_text(s, max_bytes);
            &&& encode_utf8(out).len() <= max_bytes
            &&& !cut ==> encode_utf8(s).len() <= max_bytes
            &&& cut && max_bytes > 0 ==> out.len() < s.len() && encode_utf8(
                s.take(out.len() as int + 1),
            ).len() > max_bytes
        }),
{
    let (out, cut) = truncated_text(s, max_bytes);
    lemma_truncation_sound(s, max_bytes);
    lemma_utf8_len_is_encoding_len(out);
    lemma_utf8_len_is_encoding_len(s);
    if cut && max_bytes > 0 {
        let n = s.take(out.len() as int + 1);
        lemma_utf8_len_is_encoding_len(n);
        lemma_utf8_len_push(out, s[out.len() as int]);
        assert(n =~= out.push(s[out.len() as int]));
    }
}

/// Truncating an already truncated text with the same budget changes nothing
/// and reports no further cut.
pub proof fn lemma_truncation_idempotent(s: Seq<char>, max_bytes: u64)
    requires
        max_bytes > 0,
    ensures
        truncated_text(truncated_text(s, max_bytes).0, max_bytes) == (
            truncated_text(s, max_bytes).0,
            false,
        ),
{
    lemma_truncation_sound(s, max_bytes);
}

/// The fitting prefix is a prefix, fits, and stops only where the next scalar would not.
proof fn lemma_fit_prefix(s: Seq<char>, budget: nat)
    ensures
        utf8_len(fit_prefix(s, budget)) <= budget,
        fit_prefix(s, budget).len() <= s.len(),
        fit_prefix(s, budget) == s.take(fit_prefix(s, budget).len() as int),
        fit_prefix(s, budget).len() < s.len() ==> utf8_len(fit_prefix(s, budget)) + char_bytes(
            s[fit_prefix(s, budget).len() as int],
        ) > budget,
    decreases s.len(),
{
    if s.len() == 0 || char_bytes(s[0]) > budget {
        assert(s.take(0) == Seq::<char>::empty());
    } else {
        let rest = (budget - char_bytes(s[0])) as nat;
        lemma_fit_prefix(s.drop_first(), rest);
        let p = fit_prefix(s.drop_first(), rest);
        let out = seq![s[0]] + p;
        assert(out.drop_first() == p);
        assert(out[0] == s[0]);
        assert(out == s.take(out.len() as int)) by {
            assert(p == s.drop_first().take(p.len() as int));
            assert forall|k: int| 0 <= k < out.len() implies out[k] == s.take(out.len() as int)[k] by {
                if k > 0 {
                    assert(out[k] == p[k - 1]);
                    assert(p[k - 1] == s.drop_first()[k - 1]);
                }
            }
        }
        if out.len() < s.len() {
            assert(s[out.len() as int] == s.drop_first()[p.len() as int]);
        }
    }
}

/// Apply `max_output_bytes` truncation to a readme payload.
pub fn apply_truncation_to_readme(data: ReadmeData, cfg: &Config) -> (r: ReadmeData)
    ensures
        r.markdown@ == truncated_text(data.markdown@, cfg.max_output_bytes).0,
        r.truncated == truncated_text(data.markdown@, cfg.max_output_bytes).1,
        r.crate_name == data.crate_name,
        r.version == data.version,
        r.resolved_version == data.resolved_version,
        r.empty == data.empty,
        r.source_url == data.source_url,
        r.cache_hit == data.cache_hit,
{
    let mut data = data;
    let (md, trunc) = truncate_output(data.markdown.as_str(), cfg.max_output_bytes);
    data.markdown = md;
    data.truncated = trunc;
    data
}

/// Apply `max_output_bytes` truncation to a get-item payload.
pub fn apply_truncation_to_item(data: GetItemData, cfg: &Config) -> (r: GetItemData)
    ensures
        r.markdown@ == truncated_text(data.markdown@, cfg.max_output_bytes).0,
        r.truncated == truncated_text(data.markdown@, cfg.max_output_bytes).1,
        r.crate_name == data.crate_name,
        r.item_type == data.item_type,
        r.item_path == data.item_path,
        r.item_name == data.item_name,
        r.version == data.version,
        r.resolved_version == data.resolved_version,
        r.empty == data.empty,
        r.source_url == data.source_url,
        r.title == data.title,
        r.cache_hit == data.cache_hit,
        r.extraction == data.extraction,
        r.anchor_family == data.anchor_family,
        r.resolved_item_path == data.resolved_item_path,
{
    let mut data = data;
    let (md, trunc) = truncate_output(data.markdown.as_str(), cfg.max_output_bytes);
    data.markdown = md;
    data.truncated = trunc;
    data
}

/// What shrinking a hit list to the output budget leaves: a prefix of the hits,
/// marked truncated when any hit was dropped or even no hit fits.
pub open spec fn budget_kept<T>(before: Seq<T>, after: Seq<T>, was_truncated: bool, truncated: bool) -> bool {
    &&& after.len() <= before.len()
    &&& after == before.take(after.len() as int)
    &&& (after.len() < before.len() ==> truncated)
    &&& (was_truncated ==> truncated)
}

/// A measured envelope length fits the budget (an unmeasurable payload is
/// let through).
pub open spec fn fits(len: Option<u64>, max_bytes: u64) -> bool {
    match len {
        None => true,
        Some(n) => n <= max_bytes,
    }
}

/// `p` is `d` with its hits cut to the first `k` (other fields but the
/// truncation flag kept).
pub open spec fn crates_cut(p: SearchCratesData, d: SearchCratesData, k: int) -> bool {
    &&& p.hits@ == d.hits@.take(k)
    &&& p.query == d.query
    &&& p.page == d.page
    &&& p.per_page == d.per_page
    &&& p.sort == d.sort
    &&& p.meta == d.meta
    &&& p.cache_hit == d.cache_hit
}

/// Reduce `search-crates` hits until the success envelope fits
/// `max_output_bytes`, as measured by `envelope_len` (`None` when the payload
/// cannot be measured, which stops shrinking). A payload that already fits
/// comes back unchanged; a hit is dropped only when the payload holding it
/// was measured over the budget. If even zero hits exceed the budget, the
/// zero-hit payload comes back marked truncated.
#[verifier::loop_isolation(false)]
pub fn apply_output_budget_search_crates<F: Fn(&SearchCratesData) -> Option<u64>>(
    data: SearchCratesData,
    max_bytes: u64,
    envelope_len: F,
) -> (r: SearchCratesData)
    requires
        forall|d: &SearchCratesData| envelope_len.requires((d,)),
    ensures
        budget_kept(data.hits@, r.hits@, data.truncated, r.truncated),
        r.query == data.query,
        r.page == data.page,
        r.per_page == data.per_page,
        r.sort == data.sort,
        r.meta == data.meta,
        r.cache_hit == data.cache_hit,
        max_bytes == 0 ==> r.hits@.len() == 0 && r.truncated,
        max_bytes > 0 ==> (r.hits@.len() == 0 && r.truncated) || exists|len: Option<u64>|
            #[trigger] envelope_len.ensures((&r,), len) && fits(len, max_bytes),
        max_bytes > 0 && (forall|len: Option<u64>|
            #[trigger] envelope_len.ensures((&data,), len) ==> fits(len, max_bytes)) ==> r.hits@
            == data.hits@ && r.truncated == data.truncated,
        max_bytes > 0 && r.hits@.len() < data.hits@.len() ==> exists|p: SearchCratesData, n: u64|
            #[trigger] envelope_len.ensures((&p,), Some(n)) && n > max_bytes && crates_cut(
                p,
                data,
                r.hits@.len() as int + 1,
            ),
{
    let ghost d0 = data;
    let mut data = data;
    let ghost original = data.hits@;
    if max_bytes == 0 {
        data.hits.clear();
        data.truncated = true;
        proof {
            assert(data.hits@ == original.take(0));
        }
        return data;
    }
    let ghost was_truncated = data.truncated;
    proof {
        assert(original.take(original.len() as int) == original);
    }
    loop
        invariant
            max_bytes > 0,
            forall|d: &SearchCratesData| envelope_len.requires((d,)),
            data.query == d0.query,
            data.page == d0.page,
            data.per_page == d0.per_page,
            data.sort == d0.sort,
            data.meta == d0.meta,
            data.cache_hit == d0.cache_hit,
            data.hits@.len() <= original.len(),
            data.hits@ == original.take(data.hits@.len() as int),
            data.hits@.len() < original.len() ==> data.truncated,
            was_truncated ==> data.truncated,
            data.hits@.len() == original.len() ==> data == d0,
            d0.hits@ == original,
            data.hits@.len() < original.len() ==> exists|n: u64|
                #[trigger] envelope_len.ensures((&d0,), Some(n)) && n > max_bytes,
            data.hits@.len() < original.len() ==> exists|p: SearchCratesData, n: u64|
                #[trigger] envelope_len.ensures((&p,), Some(n)) && n > max_bytes && crates_cut(
                    p,
                    d0,
                    data.hits@.len() as int + 1,
                ),
        decreases data.hits@.len(),
    {
        let ghost before = data;
        let len = envelope_len(&data);
        match len {
            None => {
                return data;
            },
            Some(n) => {
                if n <= max_bytes {
                    return data;
                }
            },
        }
        if data.hits.len() == 0 {
            data.truncated = true;
            return data;
        }
        let ghost over: u64 = match len {
            Some(n) => n,
            None => 0,
        };
        let _ = data.hits.pop();
        data.truncated = true;
        proof {
            assert(data.hits@ == original.take(data.hits@.len() as int));
            assert(before.hits@ == original.take(data.hits@.len() as int + 1));
            assert(envelope_len.ensures((&before,), Some(over)));
            assert(crates_cut(before, d0, data.hits@.len() as int + 1));
            if before.hits@.len() == original.len() {
                assert(envelope_len.ensures((&d0,), Some(over)));
            }
        }
    }
}

/// `p` is `d` with its hits cut to the first `k` (other fields but the
/// truncation flag and the emitted count kept).
pub open spec fn in_crate_cut(p: SearchInCrateData, d: SearchInCrateData, k: int) -> bool {
    &&& p.hits@ == d.hits@.take(k)
    &&& p.crate_name == d.crate_name
    &&& p.query == d.query
    &&& p.version == d.version
    &&& p.item_type == d.item_type
    &&& p.match_mode == d.match_mode
    &&& p.total == d.total
    &&& p.source_url == d.source_url
    &&& p.cache_hit == d.cache_hit
}

/// Reduce `search-in-crate` hits until the success envelope fits
/// `max_output_bytes` (as measured by `envelope_len`), keeping `emitted` equal
/// to the hits kept once any is dropped. A payload that already fits comes
/// back unchanged; a hit is dropped only when the payload holding it was
/// measured over the budget.
#[verifier::loop_isolation(false)]
pub fn apply_output_budget_search_in_crate<F: Fn(&SearchInCrateData) -> Option<u64>>(
    data: SearchInCrateData,
    max_bytes: u64,
    envelope_len: F,
) -> (r: SearchInCrateData)
    requires
        forall|d: &SearchInCrateData| envelope_len.requires((d,)),
    ensures
        budget_kept(data.hits@, r.hits@, data.truncated, r.truncated),
        r.hits@.len() < data.hits@.len() ==> r.emitted == r.hits@.len(),
        r.hits@.len() == data.hits@.len() && r.hits@.len() > 0 ==> r.emitted == data.emitted,
        r.crate_name == data.crate_name,
        r.query == data.query,
        r.version == data.version,
        r.item_type == data.item_type,
        r.match_mode == data.match_mode,
        r.total == data.total,
        r.source_url == data.source_url,
        r.cache_hit == data.cache_hit,
        max_bytes == 0 ==> r.hits@.len() == 0 && r.emitted == 0 && r.truncated,
        max_bytes > 0 ==> (r.hits@.len() == 0 && r.emitted == 0 && r.truncated) || exists|
            len: Option<u64>,
        | #[trigger] envelope_len.ensures((&r,), len) && fits(len, max_bytes),
        max_bytes > 0 && (forall|len: Option<u64>|
            #[trigger] envelope_len.ensures((&data,), len) ==> fits(len, max_bytes)) ==> r.hits@
            == data.hits@ && r.truncated == data.truncated && r.emitted == data.emitted,
        max_bytes > 0 && r.hits@.len() < data.hits@.len() ==> exists|p: SearchInCrateData, n: u64|
            #[trigger] envelope_len.ensures((&p,), Some(n)) && n > max_bytes && in_crate_cut(
                p,
                data,
                r.hits@.len() as int + 1,
            ),
{
    let ghost d0 = data;
    let mut data = data;
    let ghost original = data.hits@;
    let ghost emitted0 = data.emitted;
    if max_bytes == 0 {
        data.hits.clear();
        data.emitted = 0;
        data.truncated = true;
        proof {
            assert(data.hits@ == original.take(0));
        }
        return data;
    }
    let ghost was_truncated = data.truncated;
    proof {
        assert(original.take(original.len() as int) == original);
    }
    loop
        invariant
            max_bytes > 0,
            forall|d: &SearchInCrateData| envelope_len.requires((d,)),
            data.crate_name == d0.crate_name,
            data.query == d0.query,
            data.version == d0.version,
            data.item_type == d0.item_type,
            data.match_mode == d0.match_mode,
            data.total == d0.total,
            data.source_url == d0.source_url,
            data.cache_hit == d0.cache_hit,
            data.hits@.len() <= original.len(),
            data.hits@ == original.take(data.hits@.len() as int),
            data.hits@.len() < original.len() ==> data.truncated && data.emitted
                == data.hits@.len(),
            data.hits@.len() == original.len() ==> data.emitted == emitted0,
            was_truncated ==> data.truncated,
            data.hits@.len() == original.len() ==> data == d0,
            d0.hits@ == original,
            data.hits@.len() < original.len() ==> exists|n: u64|
                #[trigger] envelope_len.ensures((&d0,), Some(n)) && n > max_bytes,
            data.hits@.len() < original.len() ==> exists|p: SearchInCrateData, n: u64|
                #[trigger] envelope_len.ensures((&p,), Some(n)) && n > max_bytes && in_crate_cut(
                    p,
                    d0,
                    data.hits@.len() as int + 1,
                ),
        decreases data.hits@.len(),
    {
        let ghost before = data;
        let len = envelope_len(&data);
        match len {
            None => {
                return data;
            },
            Some(n) => {
                if n <= max_bytes {
                    return data;
                }
            },
        }
        if data.hits.len() == 0 {
            data.emitted = 0;
            data.truncated = true;
            return data;
        }
        let ghost over: u64 = match len {
            Some(n) => n,
            None => 0,
        };
        let _ = data.hits.pop();
        data.emitted = data.hits.len();
        data.truncated = true;
        proof {
            assert(data.hits@ == original.take(data.hits@.len() as int));
            assert(before.hits@ == original.take(data.hits@.len() as int + 1));
            assert(envelope_len.ensures((&before,), Some(over)));
            assert(in_crate_cut(before, d0, data.hits@.len() as int + 1));
            if before.hits@.len() == original.len() {
                assert(envelope_len.ensures((&d0,), Some(over)));
            }
        }
    }
}

} // verus!
