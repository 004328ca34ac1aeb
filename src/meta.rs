//! Tag and cover-art operations on FLAC containers.
pub mod coverart;
pub mod metadata;
