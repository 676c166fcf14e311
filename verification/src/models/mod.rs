//! Which models there are, which are offered, and which one is used.

pub mod cache_path;
pub mod catalog;
pub mod listing;
pub mod manager;
pub mod order;
pub mod picker;
pub mod types;
