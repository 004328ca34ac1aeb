//! Audio classification: the kind that binary-signature inference finds,
//! accepted only where it is FLAC.
use vstd::prelude::*;

use crate::detection::{flac_file_type, flac_view, text_eq, FileType};
use crate::types::MediaError;

verus! {

pub const FLAC_TYPE: &'static str = "flac";

pub const MIME_FLAC: &'static str = "audio/x-flac";

/// The MIME type of the kind that `infer` recognises first in some bytes,
/// if any.
pub uninterp spec fn inferred_mime(data: Seq<u8>) -> Option<Seq<char>>;

/// Relies on `infer::get`: the first of its matchers that accepts the bytes
/// names the kind, reported by its MIME type.
#[verifier::external_body]
fn infer_mime(data: &Vec<u8>) -> (r: Option<String>)
    ensures
        opt_text(r) == inferred_mime(data@),
{
    match infer::get(data.as_slice()) {
        Some(kind) => Some(kind.mime_type().to_string()),
        None => None,
    }
}

/// The text of an optional string.
pub open spec fn opt_text(o: Option<String>) -> Option<Seq<char>> {
    match o {
        Some(s) => Some(s@),
        None => None,
    }
}

/// The outcome of audio classification for an inferred MIME type: only
/// FLAC is supported.
pub open spec fn audio_kind(mime: Option<Seq<char>>) -> Option<(Seq<char>, Seq<char>)> {
    match mime {
        Some(m) => if m == flac_view().0 {
            Some(flac_view())
        } else {
            None
        },
        None => None,
    }
}

/// The audio file type for an inferred MIME type.
pub fn file_type_from_mime(mime: &Option<String>) -> (r: Result<FileType, MediaError>)
    ensures
        match audio_kind(opt_text(*mime)) {
            Some(v) => r matches Ok(ft) && ft@ == v,
            None => r == Err::<FileType, MediaError>(MediaError::UnsupportedFormat),
        },
{
    proof {
        reveal_strlit("audio/x-flac");
    }
    assert(MIME_FLAC@ =~= flac_view().0);
    match mime {
        Some(m) => {
            if text_eq(m.as_str(), MIME_FLAC) {
                assert(m@ =~= flac_view().0);
                Ok(flac_file_type())
            } else {
                assert(m@ != flac_view().0);
                Err(MediaError::UnsupportedFormat)
            }
        },
        None => Err(MediaError::UnsupportedFormat),
    }
}

/// Classifies audio bytes: FLAC, or unsupported.
pub fn file_type_from_data(data: &Vec<u8>) -> (r: Result<FileType, MediaError>)
    ensures
        match audio_kind(inferred_mime(data@)) {
            Some(v) => r matches Ok(ft) && ft@ == v,
            None => r == Err::<FileType, MediaError>(MediaError::UnsupportedFormat),
        },
{
    let mime = infer_mime(data);
    file_type_from_mime(&mime)
}

} // verus!
