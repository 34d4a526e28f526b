//! Argument resolution and decisions of the network commands (`readme`,
//! `get-item`, `search-in-crate`, `search-crates`): everything those commands
//! decide before the first request and after a miss, apart from the fetch.

pub mod coords;
pub mod get_item;
pub mod search_crates;
pub mod search_in_crate;

pub use get_item::{crate_prefix_mismatch, with_suggestions};
pub mod recover;
