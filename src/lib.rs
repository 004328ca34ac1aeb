//! Typed access to the tags, cover art and stream properties of FLAC
//! containers, with content-based detection of audio and image payloads.
pub mod comments;
pub mod decimal;
pub mod detection;
pub mod flac;
pub mod jpeg;
pub mod meta;
pub mod properties;
pub mod scan;
pub mod types;
pub mod util;
