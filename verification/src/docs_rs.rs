//! docs.rs payloads.

use vstd::prelude::*;

verus! {

/// `readme` payload.
#[derive(Debug, Clone, PartialEq, Eq)]
pub struct ReadmeData {
    /// Crate name.
    pub crate_name: String,
    /// Version as requested.
    pub version: String,
    /// Concrete version `latest` resolved to, when known.
    pub resolved_version: Option<String>,
    /// Documentation body as Markdown.
    pub markdown: String,
    /// No documentation content was found.
    pub empty: bool,
    /// The Markdown was cut to fit the output budget.
    pub truncated: bool,
    /// Page the content came from.
    pub source_url: String,
    /// Served from the disk cache.
    pub cache_hit: bool,
}

/// `get-item` payload.
#[derive(Debug, Clone, PartialEq, Eq)]
pub struct GetItemData {
    /// Crate name.
    pub crate_name: String,
    /// Item kind as echoed on the wire.
    pub item_type: String,
    /// Item path as requested.
    pub item_path: String,
    /// Leaf name of the item.
    pub item_name: String,
    /// Version as requested.
    pub version: String,
    /// Concrete version `latest` resolved to, when known.
    pub resolved_version: Option<String>,
    /// Item documentation as Markdown.
    pub markdown: String,
    /// No documentation content was found.
    pub empty: bool,
    /// The Markdown was cut to fit the output budget.
    pub truncated: bool,
    /// Page the content came from.
    pub source_url: String,
    /// Page title.
    pub title: String,
    /// Served from the disk cache.
    pub cache_hit: bool,
    /// How the content was extracted, when noteworthy.
    pub extraction: Option<String>,
    /// Anchor family of an associated member, when one was resolved.
    pub anchor_family: Option<String>,
    /// Canonical path the request resolved to, when it differs.
    pub resolved_item_path: Option<String>,
}

/// One `search-in-crate` hit.
#[derive(Debug, Clone, PartialEq, Eq)]
pub struct SearchInCrateHit {
    /// Item path inside the crate.
    pub name: String,
    /// Item kind.
    pub kind: String,
    /// Documentation link.
    pub url: String,
}

/// `search-in-crate` payload.
#[derive(Debug, Clone, PartialEq, Eq)]
pub struct SearchInCrateData {
    /// Crate name.
    pub crate_name: String,
    /// Query as searched (empty lists everything).
    pub query: String,
    /// Version as requested.
    pub version: String,
    /// Kind filter, when given.
    pub item_type: Option<String>,
    /// Match policy token.
    pub match_mode: String,
    /// Matches before any limit.
    pub total: usize,
    /// Hits emitted.
    pub emitted: usize,
    /// Emitted hits, best first.
    pub hits: Vec<SearchInCrateHit>,
    /// The list was cut by a limit or the output budget.
    pub truncated: bool,
    /// Page the index came from.
    pub source_url: String,
    /// Served from the disk cache.
    pub cache_hit: bool,
}

} // verus!
