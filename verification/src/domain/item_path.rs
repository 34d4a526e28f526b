//! Validated rustdoc item path.

use vstd::prelude::*;

use super::crate_name::{invalid_input_error, is_ascii_alnum, is_ascii_alnum_exec, is_crate_name_char};
use crate::config::MAX_ITEM_PATH_CHARS;
use crate::error::app_error::AppError;
use crate::error::kind::ErrorKind;
use crate::item_kind::{rustc_crate_name, rustc_name};
use crate::text::{
    char_is_ws, chars_of, dec, eq_str, is_ws, lemma_trim_noop, occurs_at, occurs_at_exec,
    push_chars, push_dec,
    push_str, replace_all, replace_all_exec, starts_with, string_of, trim, trim_chars,
};

verus! {

/// Pieces of `s` separated by `sep`, scanning left to right (`str::split`);
/// `cur` is the piece under construction.
pub open spec fn split_from(s: Seq<char>, sep: Seq<char>, cur: Seq<char>) -> Seq<Seq<char>>
    decreases s.len(),
{
    if s.len() == 0 {
        seq![cur]
    } else if sep.len() > 0 && starts_with(s, sep) {
        seq![cur] + split_from(s.skip(sep.len() as int), sep, Seq::empty())
    } else {
        split_from(s.drop_first(), sep, cur.push(s[0]))
    }
}

/// `str::split` of `s` on `sep`.
pub open spec fn split_on(s: Seq<char>, sep: Seq<char>) -> Seq<Seq<char>> {
    split_from(s, sep, Seq::empty())
}

/// The trimmed pieces that are not blank, in order.
pub open spec fn kept_pieces(pieces: Seq<Seq<char>>) -> Seq<Seq<char>>
    decreases pieces.len(),
{
    if pieces.len() == 0 {
        Seq::empty()
    } else {
        let init = kept_pieces(pieces.drop_last());
        if trim(pieces.last()).len() > 0 {
            init.push(trim(pieces.last()))
        } else {
            init
        }
    }
}

/// Segments of a trimmed path: `/` normalized to `::`, split on `::`, each
/// piece trimmed, blank pieces dropped.
pub open spec fn path_parts(t: Seq<char>) -> Seq<Seq<char>> {
    kept_pieces(split_on(replace_all(t, "/"@, "::"@), "::"@))
}

/// Why one segment is rejected, if it is.
pub open spec fn segment_error(seg: Seq<char>) -> Option<Seq<char>> {
    if seg == "."@ || seg == ".."@ {
        Some("invalid item path segment '"@ + seg + "'"@)
    } else if exists|i: int| 0 <= i < seg.len() && is_ws(#[trigger] seg[i]) {
        Some("item path segment contains whitespace: '"@ + seg + "'"@)
    } else if !(forall|i: int| 0 <= i < seg.len() ==> is_crate_name_char(#[trigger] seg[i])) {
        Some(
            "invalid item path segment '"@ + seg
                + "' (use letters, digits, underscore or hyphen; hyphens normalize to underscore; separate with :: or /)"@,
        )
    } else {
        None
    }
}

/// The normalized segments, or the rejection of the first bad segment.
pub open spec fn check_segments(parts: Seq<Seq<char>>) -> Result<Seq<Seq<char>>, Seq<char>>
    decreases parts.len(),
{
    if parts.len() == 0 {
        Ok(Seq::empty())
    } else {
        match check_segments(parts.drop_last()) {
            Err(m) => Err(m),
            Ok(segs) => match segment_error(parts.last()) {
                Some(m) => Err(m),
                None => Ok(segs.push(rustc_name(parts.last()))),
            },
        }
    }
}

/// Outcome of parsing an item path: its normalized segments or the message
/// of the rejection.
pub open spec fn item_path_outcome(raw: Seq<char>) -> Result<Seq<Seq<char>>, Seq<char>> {
    let t = trim(raw);
    if t.len() == 0 || t == "::"@ || t == "/"@ {
        Err("item path is empty"@)
    } else if t.len() > MAX_ITEM_PATH_CHARS {
        Err("item path exceeds "@ + dec(MAX_ITEM_PATH_CHARS as nat) + " characters"@)
    } else if path_parts(t).len() == 0 {
        Err("item path has no segments"@)
    } else {
        check_segments(path_parts(t))
    }
}

/// Segments joined with `sep`.
pub open spec fn join_with(segs: Seq<Seq<char>>, sep: Seq<char>) -> Seq<char>
    decreases segs.len(),
{
    if segs.len() == 0 {
        Seq::empty()
    } else if segs.len() == 1 {
        segs[0]
    } else {
        join_with(segs.drop_last(), sep) + sep + segs.last()
    }
}

/// A segment character after normalization: ASCII letter, digit or `_`.
pub open spec fn path_char(c: char) -> bool {
    is_ascii_alnum(c) || c == '_'
}

/// Segments as a parsed path holds them: at least one, none empty, each made
/// of path characters.
pub open spec fn well_formed_segments(segs: Seq<Seq<char>>) -> bool {
    &&& segs.len() > 0
    &&& forall|i: int| 0 <= i < segs.len() ==> (#[trigger] segs[i]).len() > 0
    &&& forall|i: int, k: int|
        0 <= i < segs.len() && 0 <= k < segs[i].len() ==> path_char(#[trigger] segs[i][k])
}

/// Views of a list of strings.
pub open spec fn strings_view(v: Seq<String>) -> Seq<Seq<char>> {
    v.map_values(|s: String| s@)
}

/// Validated rustdoc item path (`tokio::runtime::Runtime` or `runtime/Runtime`).
#[derive(Debug, PartialEq, Eq, Hash)]
pub struct ItemPath {
    raw: String,
    segments: Vec<String>,
}

impl Clone for ItemPath {
    fn clone(&self) -> (r: Self)
        ensures
            r.raw_view() == self.raw_view(),
            r.segments_view() == self.segments_view(),
    {
        let mut segments: Vec<String> = Vec::new();
        let mut i: usize = 0;
        while i < self.segments.len()
            invariant
                0 <= i <= self.segments@.len(),
                segments@.len() == i,
                forall|k: int| 0 <= k < i ==> (#[trigger] segments@[k])@ == self.segments@[k]@,
            decreases self.segments@.len() - i,
        {
            segments.push(self.segments[i].clone());
            i = i + 1;
        }
        proof {
            assert(strings_view(segments@) =~= strings_view(self.segments@));
        }
        ItemPath { raw: self.raw.clone(), segments }
    }
}

/// Progress of a left-to-right walk that splits `n` on `::`: the pieces
/// `done` are complete and `cur` is under construction at index `i`.
pub open spec fn split_progress(
    n: Seq<char>,
    i: int,
    done: Seq<Seq<char>>,
    cur: Seq<char>,
) -> bool {
    split_on(n, "::"@) == done + split_from(n.skip(i), "::"@, cur)
}

fn segment_error_exec(seg: &[char]) -> (r: Option<String>)
    ensures
        match (r, segment_error(seg@)) {
            (Some(a), Some(b)) => a@ == b,
            (None, None) => true,
            _ => false,
        },
{
    if eq_str(seg, ".") || eq_str(seg, "..") {
        let mut m = String::new();
        push_str(&mut m, "invalid item path segment '");
        push_chars(&mut m, seg);
        push_str(&mut m, "'");
        return Some(m);
    }
    let mut i: usize = 0;
    while i < seg.len()
        invariant
            0 <= i <= seg@.len(),
            seg@ != "."@ && seg@ != ".."@,
            forall|k: int| 0 <= k < i ==> !is_ws(#[trigger] seg@[k]),
        decreases seg@.len() - i,
    {
        if char_is_ws(seg[i]) {
            proof {
                assert(is_ws(seg@[i as int]));
            }
            let mut m = String::new();
            push_str(&mut m, "item path segment contains whitespace: '");
            push_chars(&mut m, seg);
            push_str(&mut m, "'");
            return Some(m);
        }
        i = i + 1;
    }
    let mut j: usize = 0;
    while j < seg.len()
        invariant
            0 <= j <= seg@.len(),
            seg@ != "."@ && seg@ != ".."@,
            forall|k: int| 0 <= k < seg@.len() ==> !is_ws(#[trigger] seg@[k]),
            forall|k: int| 0 <= k < j ==> is_crate_name_char(#[trigger] seg@[k]),
        decreases seg@.len() - j,
    {
        let c = seg[j];
        if !(is_ascii_alnum_exec(c) || c == '_' || c == '-') {
            proof {
                assert(!is_crate_name_char(seg@[j as int]));
            }
            let mut m = String::new();
            push_str(&mut m, "invalid item path segment '");
            push_chars(&mut m, seg);
            push_str(
                &mut m,
                "' (use letters, digits, underscore or hyphen; hyphens normalize to underscore; separate with :: or /)",
            );
            return Some(m);
        }
        j = j + 1;
    }
    None
}

/// Append `trim(piece)` to `parts` when it is not blank.
fn keep_piece(parts: &mut Vec<String>, piece: &[char], Ghost(done): Ghost<Seq<Seq<char>>>)
    requires
        strings_view(old(parts)@) == kept_pieces(done),
    ensures
        strings_view(final(parts)@) == kept_pieces(done.push(piece@)),
{
    let t = trim_chars(piece);
    proof {
        assert(done.push(piece@).drop_last() == done);
    }
    if t.len() > 0 {
        parts.push(string_of(t.as_slice()));
        proof {
            assert(strings_view(parts@) =~= kept_pieces(done).push(t@));
        }
    }
}

/// Split `n` on `::`, keeping the trimmed non-blank pieces.
fn split_parts(n: &[char]) -> (parts: Vec<String>)
    ensures
        strings_view(parts@) == kept_pieces(split_on(n@, "::"@)),
{
    let sep = chars_of("::");
    proof {
        reveal_strlit("::");
    }
    let mut parts: Vec<String> = Vec::new();
    let mut cur: Vec<char> = Vec::new();
    let ghost mut done: Seq<Seq<char>> = Seq::empty();
    let mut i: usize = 0;
    proof {
        assert(n@.skip(0) == n@);
        assert(Seq::<Seq<char>>::empty() + split_on(n@, "::"@) == split_on(n@, "::"@));
        assert(strings_view(parts@) =~= kept_pieces(done));
    }
    while i < n.len()
        invariant
            0 <= i <= n@.len(),
            sep@ == "::"@,
            split_progress(n@, i as int, done, cur@),
            strings_view(parts@) == kept_pieces(done),
        decreases n@.len() - i,
    {
        let ghost s = n@.skip(i as int);
        proof {
            reveal_strlit("::");
        }
        if occurs_at_exec(n, sep.as_slice(), i) {
            proof {
                assert(s.take(2) =~= n@.subrange(i as int, i + 2));
                assert(starts_with(s, "::"@));
                assert(s.skip(2) == n@.skip(i + 2));
                assert(done + (seq![cur@] + split_from(s.skip(2), "::"@, Seq::empty())) == done.push(
                    cur@,
                ) + split_from(n@.skip(i + 2), "::"@, Seq::empty()));
            }
            keep_piece(&mut parts, cur.as_slice(), Ghost(done));
            proof {
                done = done.push(cur@);
            }
            cur = Vec::new();
            i = i + 2;
        } else {
            proof {
                assert(!starts_with(s, "::"@)) by {
                    if 2 <= s.len() {
                        assert(s.take(2) =~= n@.subrange(i as int, i + 2));
                    }
                }
                assert(s.drop_first() == n@.skip(i + 1));
                assert(s[0] == n@[i as int]);
            }
            cur.push(n[i]);
            i = i + 1;
        }
    }
    proof {
        assert(n@.skip(i as int).len() == 0);
        assert(done + seq![cur@] == done.push(cur@));
    }
    keep_piece(&mut parts, cur.as_slice(), Ghost(done));
    parts
}

impl ItemPath {
    /// Original trimmed input.
    pub closed spec fn raw_view(&self) -> Seq<char> {
        self.raw@
    }

    /// Normalized path segments.
    pub closed spec fn segments_view(&self) -> Seq<Seq<char>> {
        strings_view(self.segments@)
    }

    /// The segments are well formed: at least one, none empty, each made of
    /// ASCII letters, digits and underscores.
    pub open spec fn wf(&self) -> bool {
        well_formed_segments(self.segments_view())
    }

    /// Parses an item path with `::` or `/` separators: trimmed, at most the
    /// length limit, every segment made of letters, digits, `_` or `-` (hyphens
    /// normalize to underscores), `.` and `..` rejected.
    pub fn parse(path: &str) -> (r: Result<Self, AppError>)
        ensures
            match item_path_outcome(path@) {
                Ok(segs) => r matches Ok(p) && p.segments_view() == segs && p.raw_view() == trim(
                    path@,
                ) && p.wf(),
                Err(m) => r matches Err(e) && invalid_input_error(e, m),
            },
    {
        let v = chars_of(path);
        let t = trim_chars(v.as_slice());
        if t.len() == 0 || eq_str(t.as_slice(), "::") || eq_str(t.as_slice(), "/") {
            return Err(AppError::new(ErrorKind::InvalidInput, "item path is empty"));
        }
        if t.len() > MAX_ITEM_PATH_CHARS {
            let mut m = String::new();
            push_str(&mut m, "item path exceeds ");
            push_dec(&mut m, MAX_ITEM_PATH_CHARS as u64);
            push_str(&mut m, " characters");
            return Err(AppError::new(ErrorKind::InvalidInput, m.as_str()));
        }
        let slash = chars_of("/");
        let colons = chars_of("::");
        let normalized = replace_all_exec(t.as_slice(), slash.as_slice(), colons.as_slice());
        let parts = split_parts(normalized.as_slice());
        if parts.len() == 0 {
            return Err(AppError::new(ErrorKind::InvalidInput, "item path has no segments"));
        }
        let ghost pv = strings_view(parts@);
        proof {
            assert(pv == path_parts(trim(path@)));
            assert(item_path_outcome(path@) == check_segments(pv));
        }
        let mut segments: Vec<String> = Vec::new();
        let mut j: usize = 0;
        proof {
            assert(pv.take(0) =~= Seq::<Seq<char>>::empty());
            assert(strings_view(segments@) =~= Seq::<Seq<char>>::empty());
        }
        while j < parts.len()
            invariant
                0 <= j <= parts@.len(),
                pv == strings_view(parts@),
                check_segments(pv.take(j as int)) == Ok::<Seq<Seq<char>>, Seq<char>>(
                    strings_view(segments@),
                ),
                item_path_outcome(path@) == check_segments(pv),
            decreases parts@.len() - j,
        {
            let seg = chars_of(parts[j].as_str());
            proof {
                assert(pv.take(j + 1).drop_last() == pv.take(j as int));
                assert(pv.take(j + 1).last() == seg@);
            }
            match segment_error_exec(seg.as_slice()) {
                Some(m) => {
                    proof {
                        lemma_check_segments_prefix_err(pv, j as int + 1);
                    }
                    return Err(AppError::new(ErrorKind::InvalidInput, m.as_str()));
                },
                None => {},
            }
            let ghost before = strings_view(segments@);
            let name = rustc_crate_name(parts[j].as_str());
            segments.push(name);
            proof {
                assert(strings_view(segments@) =~= before.push(rustc_name(seg@)));
            }
            j = j + 1;
        }
        proof {
            assert(pv.take(j as int) == pv);
            lemma_kept_pieces_nonempty(split_on(normalized@, "::"@));
            lemma_check_segments_well_formed(pv, strings_view(segments@));
        }
        Ok(ItemPath { raw: string_of(t.as_slice()), segments })
    }

    /// Path segments after normalization.
    pub fn segments(&self) -> (r: &[String])
        ensures
            strings_view(r@) == self.segments_view(),
    {
        self.segments.as_slice()
    }

    /// Owned segment list.
    pub fn into_segments(self) -> (r: Vec<String>)
        ensures
            strings_view(r@) == self.segments_view(),
    {
        self.segments
    }

    /// Original trimmed input string.
    pub fn as_str(&self) -> (r: &str)
        ensures
            r@ == self.raw_view(),
    {
        self.raw.as_str()
    }

    /// The segments joined with `::` (the display form).
    pub fn to_string(&self) -> (r: String)
        ensures
            r@ == join_with(self.segments_view(), "::"@),
    {
        let mut out = String::new();
        let mut i: usize = 0;
        let ghost sv = self.segments_view();
        while i < self.segments.len()
            invariant
                0 <= i <= self.segments@.len(),
                sv == strings_view(self.segments@),
                out@ == join_with(sv.take(i as int), "::"@),
            decreases self.segments@.len() - i,
        {
            proof {
                assert(sv.take(i + 1).drop_last() == sv.take(i as int));
                assert(sv.take(i + 1).last() == self.segments@[i as int]@);
            }
            if i > 0 {
                push_str(&mut out, "::");
            } else {
                proof {
                    assert(out@ == Seq::<char>::empty());
                }
            }
            push_str(&mut out, self.segments[i].as_str());
            i = i + 1;
            proof {
                if i == 1 {
                    assert(out@ =~= sv.take(1)[0]);
                }
            }
        }
        proof {
            assert(sv.take(i as int) == sv);
        }
        out
    }
}

/// Once a prefix of the parts is rejected, so is the whole list, with the same message.
proof fn lemma_check_segments_prefix_err(parts: Seq<Seq<char>>, j: int)
    requires
        0 <= j <= parts.len(),
        check_segments(parts.take(j)) is Err,
    ensures
        check_segments(parts) == check_segments(parts.take(j)),
    decreases parts.len() - j,
{
    if j < parts.len() {
        assert(parts.take(j + 1).drop_last() == parts.take(j));
        lemma_check_segments_prefix_err(parts, j + 1);
    } else {
        assert(parts.take(j) == parts);
    }
}

/// Every kept piece is non-empty.
proof fn lemma_kept_pieces_nonempty(pieces: Seq<Seq<char>>)
    ensures
        forall|i: int|
            0 <= i < kept_pieces(pieces).len() ==> (#[trigger] kept_pieces(pieces)[i]).len() > 0,
    decreases pieces.len(),
{
    if pieces.len() > 0 {
        let init = pieces.drop_last();
        lemma_kept_pieces_nonempty(init);
        let k = kept_pieces(pieces);
        let ki = kept_pieces(init);
        if trim(pieces.last()).len() > 0 {
            assert(k == ki.push(trim(pieces.last())));
            assert forall|i: int| 0 <= i < k.len() implies (#[trigger] k[i]).len() > 0 by {
                if i < ki.len() {
                    assert(k[i] == ki[i]);
                }
            }
        } else {
            assert(k == ki);
        }
    }
}

/// Accepted parts become their normalized segments, one for one.
proof fn lemma_check_segments_ok(parts: Seq<Seq<char>>, segs: Seq<Seq<char>>)
    requires
        check_segments(parts) == Ok::<Seq<Seq<char>>, Seq<char>>(segs),
    ensures
        segs.len() == parts.len(),
        forall|i: int|
            0 <= i < parts.len() ==> segment_error(#[trigger] parts[i]) is None && segs[i]
                == rustc_name(parts[i]),
    decreases parts.len(),
{
    if parts.len() > 0 {
        let init = parts.drop_last();
        match check_segments(init) {
            Ok(s0) => {
                lemma_check_segments_ok(init, s0);
                assert(segs == s0.push(rustc_name(parts.last())));
                assert forall|i: int| 0 <= i < parts.len() implies segment_error(
                    #[trigger] parts[i],
                ) is None && segs[i] == rustc_name(parts[i]) by {
                    if i < parts.len() - 1 {
                        assert(parts[i] == init[i]);
                    }
                }
            },
            Err(_) => {},
        }
    }
}

/// Accepted non-empty parts yield well-formed segments.
proof fn lemma_check_segments_well_formed(parts: Seq<Seq<char>>, segs: Seq<Seq<char>>)
    requires
        check_segments(parts) == Ok::<Seq<Seq<char>>, Seq<char>>(segs),
        parts.len() > 0,
        forall|i: int| 0 <= i < parts.len() ==> (#[trigger] parts[i]).len() > 0,
    ensures
        well_formed_segments(segs),
{
    lemma_check_segments_ok(parts, segs);
    assert forall|i: int, k: int|
        0 <= i < segs.len() && 0 <= k < segs[i].len() implies path_char(#[trigger] segs[i][k]) by {
        let p = parts[i];
        assert(segment_error(p) is None);
        assert(is_crate_name_char(p[k]));
        assert(segs[i][k] == (if p[k] == '-' { '_' } else { p[k] }));
    }
    assert forall|i: int| 0 <= i < segs.len() implies (#[trigger] segs[i]).len() > 0 by {
        assert(segs[i] == rustc_name(parts[i]));
    }
}

/// Joining with a separator, seen from the front.
proof fn lemma_join_front(segs: Seq<Seq<char>>, sep: Seq<char>)
    requires
        segs.len() >= 2,
    ensures
        join_with(segs, sep) == segs[0] + sep + join_with(segs.drop_first(), sep),
    decreases segs.len(),
{
    if segs.len() == 2 {
        assert(segs.drop_last().len() == 1);
        assert(segs.drop_first().len() == 1);
        assert(join_with(segs.drop_last(), sep) == segs.drop_last()[0]);
        assert(segs.drop_last()[0] == segs[0]);
        assert(join_with(segs.drop_first(), sep) == segs.drop_first()[0]);
        assert(segs.drop_first()[0] == segs[1]);
        assert(segs.last() == segs[1]);
    } else {
        let init = segs.drop_last();
        lemma_join_front(init, sep);
        let x = join_with(init.drop_first(), sep);
        assert(init.drop_first() == segs.drop_first().drop_last());
        assert(segs.drop_first().last() == segs.last());
        assert(init[0] == segs[0]);
        assert(join_with(segs.drop_first(), sep) == join_with(segs.drop_first().drop_last(), sep)
            + sep + segs.last());
        assert(join_with(segs, sep) == join_with(init, sep) + sep + segs.last());
        assert((segs[0] + sep + x) + sep + segs.last() =~= segs[0] + sep + (x + sep
            + segs.last()));
    }
}

/// Every scalar of a `::`-joined path is a path character or `:`; it begins
/// with its first segment's first scalar and ends with its last segment's last.
proof fn lemma_join_chars(segs: Seq<Seq<char>>)
    requires
        well_formed_segments(segs),
    ensures
        ({
            let j = join_with(segs, "::"@);
            &&& j.len() > 0
            &&& forall|k: int| 0 <= k < j.len() ==> path_char(#[trigger] j[k]) || j[k] == ':'
            &&& j[0] == segs[0][0]
            &&& j.last() == segs.last().last()
        }),
    decreases segs.len(),
{
    reveal_strlit("::");
    let j = join_with(segs, "::"@);
    if segs.len() == 1 {
        assert(j == segs[0]);
        assert(path_char(segs[0][0]));
    } else {
        let init = segs.drop_last();
        assert(well_formed_segments(init)) by {
            assert forall|i: int| 0 <= i < init.len() implies (#[trigger] init[i]).len() > 0 by {
                assert(init[i] == segs[i]);
            }
            assert forall|i: int, k: int|
                0 <= i < init.len() && 0 <= k < init[i].len() implies path_char(
                #[trigger] init[i][k],
            ) by {
                assert(init[i] == segs[i]);
            }
        }
        lemma_join_chars(init);
        let a = join_with(init, "::"@);
        let l = segs.last();
        assert(l == segs[segs.len() - 1]);
        assert(l.len() > 0);
        assert(j == a + "::"@ + l);
        assert forall|k: int| 0 <= k < j.len() implies path_char(#[trigger] j[k]) || j[k] == ':' by {
            if k < a.len() {
                assert(j[k] == a[k]);
            } else if k < a.len() + 2 {
                assert(j[k] == ':');
            } else {
                assert(j[k] == l[k - a.len() - 2]);
                assert(path_char(segs[segs.len() - 1][k - a.len() - 2]));
            }
        }
        assert(j[0] == a[0]);
        assert(init[0] == segs[0]);
        assert(j.last() == l.last());
    }
}

/// Scanning a stretch without `:` only extends the piece under construction.
proof fn lemma_split_walk(s: Seq<char>, rest: Seq<char>, cur: Seq<char>)
    requires
        forall|k: int| 0 <= k < s.len() ==> s[k] != ':',
    ensures
        split_from(s + rest, "::"@, cur) == split_from(rest, "::"@, cur + s),
    decreases s.len(),
{
    reveal_strlit("::");
    if s.len() == 0 {
        assert(s + rest == rest);
        assert(cur + s == cur);
    } else {
        let x = s + rest;
        assert(x[0] == s[0]);
        assert(!starts_with(x, "::"@)) by {
            if starts_with(x, "::"@) {
                assert(x.take(2)[0] == ':');
            }
        }
        assert(x.drop_first() == s.drop_first() + rest);
        lemma_split_walk(s.drop_first(), rest, cur.push(s[0]));
        assert(cur.push(s[0]) + s.drop_first() == cur + s);
    }
}

/// Splitting a `::`-joined list of colon-free pieces gives the pieces back.
proof fn lemma_split_join(segs: Seq<Seq<char>>)
    requires
        segs.len() > 0,
        forall|i: int, k: int|
            0 <= i < segs.len() && 0 <= k < segs[i].len() ==> #[trigger] segs[i][k] != ':',
    ensures
        split_on(join_with(segs, "::"@), "::"@) == segs,
    decreases segs.len(),
{
    reveal_strlit("::");
    let e = Seq::<char>::empty();
    if segs.len() == 1 {
        let s0 = segs[0];
        assert(join_with(segs, "::"@) == s0);
        assert forall|k: int| 0 <= k < s0.len() implies s0[k] != ':' by {
            assert(segs[0][k] != ':');
        }
        lemma_split_walk(s0, e, e);
        assert(s0 + e == s0);
        assert(e + s0 == s0);
        assert(segs =~= seq![s0]);
    } else {
        let s0 = segs[0];
        let rest = segs.drop_first();
        lemma_join_front(segs, "::"@);
        let jr = join_with(rest, "::"@);
        assert forall|k: int| 0 <= k < s0.len() implies s0[k] != ':' by {
            assert(segs[0][k] != ':');
        }
        assert forall|i: int, k: int|
            0 <= i < rest.len() && 0 <= k < rest[i].len() implies #[trigger] rest[i][k] != ':' by {
            assert(rest[i] == segs[i + 1]);
        }
        lemma_split_join(rest);
        let tail = "::"@ + jr;
        assert(s0 + "::"@ + jr == s0 + tail);
        lemma_split_walk(s0, tail, e);
        assert(e + s0 == s0);
        assert(starts_with(tail, "::"@)) by {
            assert(tail.take(2) =~= "::"@);
        }
        assert(tail.skip(2) == jr);
        assert(split_from(tail, "::"@, s0) == seq![s0] + split_from(jr, "::"@, e));
        assert(seq![s0] + rest =~= segs);
    }
}

/// Neither letters, digits, `_` nor `:` are whitespace.
proof fn lemma_path_chars_not_ws(c: char)
    requires
        path_char(c) || c == ':',
    ensures
        !is_ws(c),
        c != '/',
{
}

/// A path printed with `::` parses back to the same segments, as long as the
/// printed form stays within the length limit (a path written with `/` prints
/// longer than it was typed).
pub proof fn lemma_display_reparses(segs: Seq<Seq<char>>)
    requires
        well_formed_segments(segs),
        join_with(segs, "::"@).len() <= MAX_ITEM_PATH_CHARS,
    ensures
        item_path_outcome(join_with(segs, "::"@)) == Ok::<Seq<Seq<char>>, Seq<char>>(segs),
{
    reveal_strlit("::");
    reveal_strlit("/");
    reveal_strlit(".");
    reveal_strlit("..");
    let j = join_with(segs, "::"@);
    lemma_join_chars(segs);
    lemma_path_chars_not_ws(j[0]);
    lemma_path_chars_not_ws(j.last());
    assert(j.last() == j[j.len() - 1]);
    lemma_trim_noop(j);
    assert(j != "::"@ && j != "/"@) by {
        assert(path_char(segs[0][0]));
    }
    assert forall|k: int| 0 <= k < j.len() implies j[k] != '/' by {
        lemma_path_chars_not_ws(j[k]);
    }
    lemma_replace_slash_absent(j);
    assert forall|i: int, k: int|
        0 <= i < segs.len() && 0 <= k < segs[i].len() implies #[trigger] segs[i][k] != ':' by {
        assert(path_char(segs[i][k]));
    }
    lemma_split_join(segs);
    lemma_kept_pieces_identity(segs);
    lemma_check_segments_identity(segs);
}

/// Without `/`, normalizing separators changes nothing.
proof fn lemma_replace_slash_absent(s: Seq<char>)
    requires
        forall|k: int| 0 <= k < s.len() ==> s[k] != '/',
    ensures
        replace_all(s, "/"@, "::"@) == s,
    decreases s.len(),
{
    reveal_strlit("/");
    if s.len() > 0 {
        assert(!starts_with(s, "/"@)) by {
            if starts_with(s, "/"@) {
                assert(s.take(1)[0] == '/');
            }
        }
        assert forall|k: int| 0 <= k < s.drop_first().len() implies s.drop_first()[k] != '/' by {
            assert(s.drop_first()[k] == s[k + 1]);
        }
        lemma_replace_slash_absent(s.drop_first());
        assert(seq![s[0]] + s.drop_first() =~= s);
    }
}

/// Keeping the non-blank trimmed pieces of well-formed segments keeps them all.
proof fn lemma_kept_pieces_identity(segs: Seq<Seq<char>>)
    requires
        forall|i: int| 0 <= i < segs.len() ==> (#[trigger] segs[i]).len() > 0,
        forall|i: int, k: int|
            0 <= i < segs.len() && 0 <= k < segs[i].len() ==> path_char(#[trigger] segs[i][k]),
    ensures
        kept_pieces(segs) == segs,
    decreases segs.len(),
{
    if segs.len() > 0 {
        let init = segs.drop_last();
        assert forall|i: int| 0 <= i < init.len() implies (#[trigger] init[i]).len() > 0 by {
            assert(init[i] == segs[i]);
        }
        assert forall|i: int, k: int|
            0 <= i < init.len() && 0 <= k < init[i].len() implies path_char(#[trigger] init[i][k]) by {
            assert(init[i] == segs[i]);
        }
        lemma_kept_pieces_identity(init);
        let l = segs.last();
        assert(l == segs[segs.len() - 1]);
        lemma_path_chars_not_ws(l[0]);
        lemma_path_chars_not_ws(l[l.len() - 1]);
        lemma_trim_noop(l);
        assert(init.push(l) =~= segs);
    }
}

/// Well-formed segments pass every segment check unchanged.
proof fn lemma_check_segments_identity(segs: Seq<Seq<char>>)
    requires
        forall|i: int| 0 <= i < segs.len() ==> (#[trigger] segs[i]).len() > 0,
        forall|i: int, k: int|
            0 <= i < segs.len() && 0 <= k < segs[i].len() ==> path_char(#[trigger] segs[i][k]),
    ensures
        check_segments(segs) == Ok::<Seq<Seq<char>>, Seq<char>>(segs),
    decreases segs.len(),
{
    reveal_strlit(".");
    reveal_strlit("..");
    if segs.len() > 0 {
        let init = segs.drop_last();
        assert forall|i: int| 0 <= i < init.len() implies (#[trigger] init[i]).len() > 0 by {
            assert(init[i] == segs[i]);
        }
        assert forall|i: int, k: int|
            0 <= i < init.len() && 0 <= k < init[i].len() implies path_char(#[trigger] init[i][k]) by {
            assert(init[i] == segs[i]);
        }
        lemma_check_segments_identity(init);
        let l = segs.last();
        assert(l == segs[segs.len() - 1]);
        assert(forall|k: int| 0 <= k < l.len() ==> path_char(#[trigger] l[k]));
        assert(l != "."@ && l != ".."@) by {
            assert(path_char(l[0]));
        }
        assert(!(exists|i: int| 0 <= i < l.len() && is_ws(#[trigger] l[i]))) by {
            assert forall|i: int| 0 <= i < l.len() implies !is_ws(#[trigger] l[i]) by {
                lemma_path_chars_not_ws(l[i]);
            }
        }
        assert(forall|i: int| 0 <= i < l.len() ==> is_crate_name_char(#[trigger] l[i]));
        assert(segment_error(l) is None);
        assert(rustc_name(l) =~= l);
        assert(init.push(l) =~= segs);
        assert(segs.drop_last() == init);
        assert(check_segments(segs) == Ok::<Seq<Seq<char>>, Seq<char>>(init.push(rustc_name(l))));
    } else {
        assert(segs =~= Seq::<Seq<char>>::empty());
    }
}

} // verus!
