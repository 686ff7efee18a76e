//! Paths, directory listings and entry metadata.

pub mod listing;
pub mod path;
pub mod metadata;
