//! Image classification by leading signature bytes.
use vstd::prelude::*;

use crate::detection::{jpeg_file_type, jpeg_view, png_file_type, png_view, FileType};
use crate::types::MediaError;

verus! {

pub const PNG_TYPE: &'static str = "png";

pub const JPEG_TYPE: &'static str = "jpeg";

pub const JPG_TYPE: &'static str = "jpg";

pub const MIME_PNG: &'static str = "image/png";

pub const MIME_JPEG: &'static str = "image/jpeg";

/// The eight bytes that open every PNG stream.
pub open spec fn png_signature() -> Seq<u8> {
    seq![0x89u8, 0x50u8, 0x4Eu8, 0x47u8, 0x0Du8, 0x0Au8, 0x1Au8, 0x0Au8]
}

pub open spec fn has_png_signature(b: Seq<u8>) -> bool {
    b.len() >= 8 && b.subrange(0, 8) == png_signature()
}

/// The JPEG start-of-image marker.
pub open spec fn has_jpeg_marker(b: Seq<u8>) -> bool {
    b.len() >= 2 && b[0] == 0xFFu8 && b[1] == 0xD8u8
}

/// The image kind of some bytes, as a MIME type and a code: PNG by its
/// signature, else JPEG by its start-of-image marker.
pub open spec fn image_kind(b: Seq<u8>) -> Option<(Seq<char>, Seq<char>)> {
    if has_png_signature(b) {
        Some(png_view())
    } else if has_jpeg_marker(b) {
        Some(jpeg_view())
    } else {
        None
    }
}

fn starts_with_png_signature(data: &Vec<u8>) -> (r: bool)
    ensures
        r == has_png_signature(data@),
{
    if data.len() < 8 {
        return false;
    }
    let r = data[0] == 0x89 && data[1] == 0x50 && data[2] == 0x4E && data[3] == 0x47
        && data[4] == 0x0D && data[5] == 0x0A && data[6] == 0x1A && data[7] == 0x0A;
    assert(r == (data@.subrange(0, 8) =~= png_signature()));
    r
}

/// Classifies image bytes as PNG or JPEG.
pub fn file_type_from_data(data: &Vec<u8>) -> (r: Result<FileType, MediaError>)
    ensures
        match image_kind(data@) {
            Some(v) => r matches Ok(ft) && ft@ == v,
            None => r == Err::<FileType, MediaError>(MediaError::UnsupportedFormat),
        },
{
    if starts_with_png_signature(data) {
        Ok(png_file_type())
    } else if data.len() >= 2 && data[0] == 0xFF && data[1] == 0xD8 {
        Ok(jpeg_file_type())
    } else {
        Err(MediaError::UnsupportedFormat)
    }
}

/// Bytes that open with the PNG signature are PNG, whatever follows.
pub proof fn lemma_png_whatever_follows(sig: Seq<u8>, rest: Seq<u8>)
    requires
        sig == png_signature(),
    ensures
        image_kind(sig + rest) == Some(png_view()),
{
    assert((sig + rest).subrange(0, 8) =~= sig);
}

/// Bytes that open with the start-of-image marker and not with the PNG
/// signature are JPEG.
pub proof fn lemma_jpeg_marker(rest: Seq<u8>)
    ensures
        image_kind(seq![0xFFu8, 0xD8u8] + rest) == Some(jpeg_view()),
{
    let b = seq![0xFFu8, 0xD8u8] + rest;
    assert(b[0] == 0xFFu8);
    if b.len() >= 8 {
        assert(b.subrange(0, 8)[0] != png_signature()[0]);
    }
}

/// Bytes that are all zero are of no supported image kind.
pub proof fn lemma_zeros_unsupported(b: Seq<u8>)
    requires
        forall|i: int| 0 <= i < b.len() ==> b[i] == 0u8,
    ensures
        image_kind(b) is None,
{
    if b.len() >= 8 {
        assert(b.subrange(0, 8)[0] != png_signature()[0]);
    }
}

} // verus!
