//! The sign-in screens of a first run.

pub mod config_edits;
pub mod display;
pub mod entry;
pub mod keys;
pub mod lines;
pub mod probe;
pub mod provider;
pub mod screen;
pub mod sign_in;
pub mod wizard;
