//! Classification and resolution of puzzle-sharing URLs.
//!
//! The crate takes a parsed URL, classifies it as either an already
//! resolved puzzle reference or one that needs a single further network
//! fetch, and resolves the latter through a minimal fetcher interface.
//! A cache decorator wraps any fetcher with a persistent key-value store.

pub mod build_env;
pub mod explorer_collection;
pub mod format;
pub mod fpuzzles;
pub mod numeric;
pub mod path_tool;
pub mod serialization;
pub mod sudokupad;
pub mod text;
pub mod urls;
