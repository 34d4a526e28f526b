//! crates.io search payloads.

use vstd::prelude::*;

verus! {

/// One crates.io search hit.
#[derive(Debug, Clone, PartialEq, Eq)]
pub struct CrateSearchHit {
    /// Crate name.
    pub name: String,
    /// One-line description.
    pub description: String,
    /// All-time downloads.
    pub downloads: u64,
    /// Newest version.
    pub version: String,
    /// Documentation URL declared by the crate.
    pub documentation: Option<String>,
    /// Highest version, prereleases included.
    pub max_version: Option<String>,
    /// Highest stable version.
    pub max_stable_version: Option<String>,
    /// Version crates.io shows by default.
    pub default_version: Option<String>,
    /// Downloads over the last 90 days.
    pub recent_downloads: Option<u64>,
    /// Whether the name matched the query exactly.
    pub exact_match: Option<bool>,
    /// Whether the newest version is yanked.
    pub yanked: Option<bool>,
    /// Repository URL.
    pub repository: Option<String>,
    /// Homepage URL.
    pub homepage: Option<String>,
}

/// Pagination metadata of a search.
#[derive(Debug, Clone, PartialEq, Eq)]
pub struct SearchMeta {
    /// Total number of matches.
    pub total: u64,
    /// Query string of the next page, when there is one.
    pub next_page: Option<String>,
    /// Query string of the previous page, when there is one.
    pub prev_page: Option<String>,
}

/// `search-crates` payload.
#[derive(Debug, Clone, PartialEq, Eq)]
pub struct SearchCratesData {
    /// Query as searched.
    pub query: String,
    /// 1-based page number.
    pub page: u32,
    /// Page size.
    pub per_page: u32,
    /// Sort order.
    pub sort: String,
    /// Hits on this page, best first.
    pub hits: Vec<CrateSearchHit>,
    /// Pagination metadata.
    pub meta: SearchMeta,
    /// Served from the disk cache.
    pub cache_hit: bool,
    /// Hits were dropped to fit the output budget.
    pub truncated: bool,
}

} // verus!
