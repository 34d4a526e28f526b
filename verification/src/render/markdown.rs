//! Human-readable Markdown for each command payload.

use vstd::prelude::*;

use crate::config::{HOST_DOCS_RS, SCHEME_HTTPS};
use crate::crates_io::{CrateSearchHit, SearchCratesData};
use crate::docs_rs::{GetItemData, ReadmeData, SearchInCrateData, SearchInCrateHit};
use crate::text::{dec, push_dec, push_str};

verus! {

/// Documentation link of a hit: its own when declared and non-empty, else docs.rs.
pub open spec fn docs_link(h: CrateSearchHit) -> Seq<char> {
    match h.documentation {
        Some(s) => if s@.len() > 0 {
            s@
        } else {
            SCHEME_HTTPS@ + "://"@ + HOST_DOCS_RS@ + "/"@ + h.name@
        },
        None => SCHEME_HTTPS@ + "://"@ + HOST_DOCS_RS@ + "/"@ + h.name@,
    }
}

/// Markdown section of one crate hit.
pub open spec fn crate_hit_md(h: CrateSearchHit) -> Seq<char> {
    "## "@ + h.name@ + " ("@ + h.version@ + ")\n\n"@ + "**Description:** "@ + h.description@
        + "\n\n"@ + "**Downloads:** "@ + dec(h.downloads as nat) + "\n\n"@ + "**Documentation:** "@
        + docs_link(h) + "\n\n---\n\n"@
}

/// Markdown sections of crate hits, in order.
pub open spec fn crate_hits_md(hits: Seq<CrateSearchHit>) -> Seq<char>
    decreases hits.len(),
{
    if hits.len() == 0 {
        Seq::empty()
    } else {
        crate_hits_md(hits.drop_last()) + crate_hit_md(hits.last())
    }
}

/// Markdown of a `search-crates` payload.
pub open spec fn search_md(d: SearchCratesData) -> Seq<char> {
    "# Crate Search Results for \""@ + d.query@ + "\" (page "@ + dec(d.page as nat) + ")\n\n"@ + if d.hits@.len()
        == 0 {
        "No crates found.\n"@
    } else {
        crate_hits_md(d.hits@)
    }
}

/// Markdown of a `readme` payload.
pub open spec fn readme_md(d: ReadmeData) -> Seq<char> {
    "# "@ + d.crate_name@ + " Documentation\n\n"@ + if d.empty {
        "No documentation content found.\n"@
    } else {
        d.markdown@ + "\n"@
    }
}

/// Markdown of a `get-item` payload.
pub open spec fn item_md(d: GetItemData) -> Seq<char> {
    "# "@ + d.title@ + "\n\n"@ + "**Documentation URL:** "@ + d.source_url@ + "\n\n"@ + if d.empty {
        "No documentation content found.\n"@
    } else {
        d.markdown@ + "\n"@
    }
}

/// Markdown section of one item hit.
pub open spec fn item_hit_md(h: SearchInCrateHit) -> Seq<char> {
    "## "@ + h.name@ + " ("@ + h.kind@ + ")\n\n"@ + "**Link:** "@ + h.url@ + "\n\n---\n\n"@
}

/// Markdown sections of item hits, in order.
pub open spec fn item_hits_md(hits: Seq<SearchInCrateHit>) -> Seq<char>
    decreases hits.len(),
{
    if hits.len() == 0 {
        Seq::empty()
    } else {
        item_hits_md(hits.drop_last()) + item_hit_md(hits.last())
    }
}

/// Markdown of a `search-in-crate` payload (an empty query reads "all items").
pub open spec fn search_in_crate_md(d: SearchInCrateData) -> Seq<char> {
    let term = if d.query@.len() == 0 { "all items"@ } else { d.query@ };
    "# Search Results for \""@ + term + "\" in "@ + d.crate_name@ + "\n\nFound "@ + dec(d.total as nat)
        + " items (emitted "@ + dec(d.emitted as nat) + ")\n\n"@ + if d.hits@.len() == 0 {
        "No matching items found.\n"@
    } else {
        item_hits_md(d.hits@)
    }
}

fn push_crate_hit(out: &mut String, h: &CrateSearchHit)
    ensures
        final(out)@ == old(out)@ + crate_hit_md(*h),
{
    push_str(out, "## ");
    push_str(out, h.name.as_str());
    push_str(out, " (");
    push_str(out, h.version.as_str());
    push_str(out, ")\n\n");
    push_str(out, "**Description:** ");
    push_str(out, h.description.as_str());
    push_str(out, "\n\n");
    push_str(out, "**Downloads:** ");
    push_dec(out, h.downloads);
    push_str(out, "\n\n");
    push_str(out, "**Documentation:** ");
    let mut own = false;
    match &h.documentation {
        Some(s) => {
            if s.as_str().unicode_len() > 0 {
                push_str(out, s.as_str());
                own = true;
            }
        },
        None => {},
    }
    if !own {
        push_str(out, SCHEME_HTTPS);
        push_str(out, "://");
        push_str(out, HOST_DOCS_RS);
        push_str(out, "/");
        push_str(out, h.name.as_str());
    }
    push_str(out, "\n\n---\n\n");
}

/// Human Markdown for `search-crates`.
pub fn render_search_markdown(data: &SearchCratesData) -> (r: String)
    ensures
        r@ == search_md(*data),
{
    let mut out = String::new();
    push_str(&mut out, "# Crate Search Results for \"");
    push_str(&mut out, data.query.as_str());
    push_str(&mut out, "\" (page ");
    push_dec(&mut out, data.page as u64);
    push_str(&mut out, ")\n\n");
    if data.hits.len() == 0 {
        push_str(&mut out, "No crates found.\n");
        return out;
    }
    let ghost head = out@;
    let mut i: usize = 0;
    while i < data.hits.len()
        invariant
            0 <= i <= data.hits@.len(),
            out@ == head + crate_hits_md(data.hits@.take(i as int)),
        decreases data.hits@.len() - i,
    {
        proof {
            assert(data.hits@.take(i + 1).drop_last() == data.hits@.take(i as int));
            assert(data.hits@.take(i + 1).last() == data.hits@[i as int]);
        }
        push_crate_hit(&mut out, &data.hits[i]);
        i = i + 1;
    }
    proof {
        assert(data.hits@.take(i as int) == data.hits@);
    }
    out
}

/// Human Markdown for `readme`.
pub fn render_readme_markdown(data: &ReadmeData) -> (r: String)
    ensures
        r@ == readme_md(*data),
{
    let mut out = String::new();
    push_str(&mut out, "# ");
    push_str(&mut out, data.crate_name.as_str());
    push_str(&mut out, " Documentation\n\n");
    if data.empty {
        push_str(&mut out, "No documentation content found.\n");
    } else {
        push_str(&mut out, data.markdown.as_str());
        push_str(&mut out, "\n");
    }
    out
}

/// Human Markdown for `get-item`.
pub fn render_item_markdown(data: &GetItemData) -> (r: String)
    ensures
        r@ == item_md(*data),
{
    let mut out = String::new();
    push_str(&mut out, "# ");
    push_str(&mut out, data.title.as_str());
    push_str(&mut out, "\n\n");
    push_str(&mut out, "**Documentation URL:** ");
    push_str(&mut out, data.source_url.as_str());
    push_str(&mut out, "\n\n");
    if data.empty {
        push_str(&mut out, "No documentation content found.\n");
    } else {
        push_str(&mut out, data.markdown.as_str());
        push_str(&mut out, "\n");
    }
    out
}

fn push_item_hit(out: &mut String, h: &SearchInCrateHit)
    ensures
        final(out)@ == old(out)@ + item_hit_md(*h),
{
    push_str(out, "## ");
    push_str(out, h.name.as_str());
    push_str(out, " (");
    push_str(out, h.kind.as_str());
    push_str(out, ")\n\n");
    push_str(out, "**Link:** ");
    push_str(out, h.url.as_str());
    push_str(out, "\n\n---\n\n");
}

/// Human Markdown for `search-in-crate`.
pub fn render_search_in_crate_markdown(data: &SearchInCrateData) -> (r: String)
    ensures
        r@ == search_in_crate_md(*data),
{
    let mut out = String::new();
    push_str(&mut out, "# Search Results for \"");
    if data.query.as_str().unicode_len() == 0 {
        push_str(&mut out, "all items");
    } else {
        push_str(&mut out, data.query.as_str());
    }
    push_str(&mut out, "\" in ");
    push_str(&mut out, data.crate_name.as_str());
    push_str(&mut out, "\n\nFound ");
    push_dec(&mut out, data.total as u64);
    push_str(&mut out, " items (emitted ");
    push_dec(&mut out, data.emitted as u64);
    push_str(&mut out, ")\n\n");
    if data.hits.len() == 0 {
        push_str(&mut out, "No matching items found.\n");
        return out;
    }
    let ghost head = out@;
    let mut i: usize = 0;
    while i < data.hits.len()
        invariant
            0 <= i <= data.hits@.len(),
            out@ == head + item_hits_md(data.hits@.take(i as int)),
        decreases data.hits@.len() - i,
    {
        proof {
            assert(data.hits@.take(i + 1).drop_last() == data.hits@.take(i as int));
            assert(data.hits@.take(i + 1).last() == data.hits@[i as int]);
        }
        push_item_hit(&mut out, &data.hits[i]);
        i = i + 1;
    }
    proof {
        assert(data.hits@.take(i as int) == data.hits@);
    }
    out
}

} // verus!
