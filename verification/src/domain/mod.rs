//! Domain newtypes: parse at the boundary, carry validity in the type.

pub mod crate_name;
pub mod crate_ref;
pub mod item_path;
pub mod match_mode;
pub mod origin;
pub mod regex;
pub mod search_query;
pub mod version;

pub use crate_name::{is_stdlib_name, CrateName};
pub use crate_ref::CrateRef;
pub use item_path::ItemPath;
pub use match_mode::MatchMode;
pub use origin::AllowedOrigin;
pub use search_query::SearchQuery;
pub use version::VersionArg;
