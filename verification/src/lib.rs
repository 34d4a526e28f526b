//! Verified core of a one-shot client for crates.io search and docs.rs documentation.
//!
//! The library validates every input at the boundary (crate names, item paths,
//! versions, origins), classifies every failure into a stable kind with an exit
//! code, renders error prose in English and Brazilian Portuguese, and decides
//! retry, backoff and output-budget questions. Network and terminal I/O live in
//! the companion application crate.

pub mod config;
pub mod crates_io;
pub mod docs_rs;
pub mod domain;
pub mod http;
pub mod error;
pub mod i18n;
pub mod item_kind;
pub mod local_cmds;
pub mod meta;
pub mod ops;
pub mod output;
pub mod render;
pub mod retry;
pub mod text;
