//! Content-based classification of image and audio payloads.
pub mod coverart;
pub mod song;

use vstd::prelude::*;
use vstd::string::*;
use crate::types::MediaError;

verus! {

/// A detected kind of content: its MIME type and its short code.
#[derive(Debug)]
pub struct FileType {
    pub mime: String,
    pub file_type: String,
}

impl View for FileType {
    type V = (Seq<char>, Seq<char>);

    /// The MIME type, then the code.
    open spec fn view(&self) -> (Seq<char>, Seq<char>) {
        (self.mime@, self.file_type@)
    }
}

pub open spec fn png_view() -> (Seq<char>, Seq<char>) {
    (seq!['i', 'm', 'a', 'g', 'e', '/', 'p', 'n', 'g'], seq!['p', 'n', 'g'])
}

pub open spec fn jpeg_view() -> (Seq<char>, Seq<char>) {
    (seq!['i', 'm', 'a', 'g', 'e', '/', 'j', 'p', 'e', 'g'], seq!['j', 'p', 'e', 'g'])
}

pub open spec fn flac_view() -> (Seq<char>, Seq<char>) {
    (
        seq!['a', 'u', 'd', 'i', 'o', '/', 'x', '-', 'f', 'l', 'a', 'c'],
        seq!['f', 'l', 'a', 'c'],
    )
}

/// The kind that a code names: `flac`, `png`, and `jpeg` or its short form `jpg`.
pub open spec fn kind_of_code(code: Seq<char>) -> Option<(Seq<char>, Seq<char>)> {
    if code == flac_view().1 {
        Some(flac_view())
    } else if code == png_view().1 {
        Some(png_view())
    } else if code == jpeg_view().1 || code == seq!['j', 'p', 'g'] {
        Some(jpeg_view())
    } else {
        None
    }
}

pub(crate) fn text_eq(a: &str, b: &str) -> (r: bool)
    ensures
        r == (a@ == b@),
{
    a.to_owned() == b.to_owned()
}

pub(crate) fn png_file_type() -> (r: FileType)
    ensures
        r@ == png_view(),
{
    let r = FileType { mime: String::from_str(coverart::MIME_PNG), file_type: String::from_str(coverart::PNG_TYPE) };
    proof {
        reveal_strlit("image/png");
        reveal_strlit("png");
    }
    assert(r@.0 =~= png_view().0);
    assert(r@.1 =~= png_view().1);
    r
}

pub(crate) fn jpeg_file_type() -> (r: FileType)
    ensures
        r@ == jpeg_view(),
{
    let r = FileType { mime: String::from_str(coverart::MIME_JPEG), file_type: String::from_str(coverart::JPEG_TYPE) };
    proof {
        reveal_strlit("image/jpeg");
        reveal_strlit("jpeg");
    }
    assert(r@.0 =~= jpeg_view().0);
    assert(r@.1 =~= jpeg_view().1);
    r
}

pub(crate) fn flac_file_type() -> (r: FileType)
    ensures
        r@ == flac_view(),
{
    let r = FileType { mime: String::from_str(song::MIME_FLAC), file_type: String::from_str(song::FLAC_TYPE) };
    proof {
        reveal_strlit("audio/x-flac");
        reveal_strlit("flac");
    }
    assert(r@.0 =~= flac_view().0);
    assert(r@.1 =~= flac_view().1);
    r
}

/// The file type that a code names.
pub fn init_filetype(filetype: &str) -> (r: Result<FileType, MediaError>)
    ensures
        match kind_of_code(filetype@) {
            Some(v) => r matches Ok(ft) && ft@ == v,
            None => r == Err::<FileType, MediaError>(MediaError::UnsupportedFormat),
        },
{
    proof {
        reveal_strlit("flac");
        reveal_strlit("png");
        reveal_strlit("jpeg");
        reveal_strlit("jpg");
    }
    assert(song::FLAC_TYPE@ =~= flac_view().1);
    assert(coverart::PNG_TYPE@ =~= png_view().1);
    assert(coverart::JPEG_TYPE@ =~= jpeg_view().1);
    assert(coverart::JPG_TYPE@ =~= seq!['j', 'p', 'g']);
    if text_eq(filetype, song::FLAC_TYPE) {
        assert(filetype@ =~= flac_view().1);
        Ok(flac_file_type())
    } else if text_eq(filetype, coverart::PNG_TYPE) {
        assert(filetype@ =~= png_view().1);
        assert(filetype@ != flac_view().1);
        Ok(png_file_type())
    } else if text_eq(filetype, coverart::JPEG_TYPE) || text_eq(filetype, coverart::JPG_TYPE) {
        assert(filetype@ != flac_view().1 && filetype@ != png_view().1);
        assert(filetype@ == jpeg_view().1 || filetype@ == seq!['j', 'p', 'g']);
        Ok(jpeg_file_type())
    } else {
        assert(filetype@ != flac_view().1);
        assert(filetype@ != png_view().1);
        assert(filetype@ != jpeg_view().1);
        assert(filetype@ != seq!['j', 'p', 'g']);
        Err(MediaError::UnsupportedFormat)
    }
}

} // verus!
