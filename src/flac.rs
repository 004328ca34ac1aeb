//! The FLAC container as the `lofty` crate reads and writes it: its types,
//! names for what a container and a comment block hold, and one wrapper per
//! `lofty` function that the library calls.
use vstd::prelude::*;

use lofty::config::{ParseOptions, WriteOptions};
use lofty::error::{FileEncodingError, FileParseError};
use lofty::file::AudioFile;
use lofty::flac::FlacFile;
use lofty::ogg::tag::VorbisComments;
use lofty::ogg::OggPictureStorage;
use lofty::picture::error::PictureParseError;
use lofty::picture::{Picture, PictureInformation};
use lofty::tag::Accessor;

use crate::comments::{inserted, without_key, Entry};
use crate::decimal::dec_text;
use crate::detection::coverart::{has_jpeg_marker, has_png_signature, image_kind};
use crate::jpeg::jpeg_header_readable;
use crate::scan::{holds_short_coverart, holds_short_coverart_comment};
use crate::types::MediaError;

verus! {

#[verifier::external_type_specification]
#[verifier::external_body]
pub struct ExFlacFile(FlacFile);

#[verifier::external_type_specification]
#[verifier::external_body]
pub struct ExVorbisComments(VorbisComments);

#[verifier::external_type_specification]
#[verifier::external_body]
pub struct ExPicture(Picture);

#[verifier::external_type_specification]
#[verifier::external_body]
pub struct ExPictureInformation(PictureInformation);

#[verifier::external_type_specification]
#[verifier::external_body]
pub struct ExFileParseError(FileParseError);

#[verifier::external_type_specification]
#[verifier::external_body]
pub struct ExFileEncodingError(FileEncodingError);

#[verifier::external_type_specification]
#[verifier::external_body]
pub struct ExPictureParseError(PictureParseError);

/// The entries of a comment block, in order.
pub uninterp spec fn comment_items(c: VorbisComments) -> Seq<Entry>;

/// The entries of a container's comment block, if it has one.
pub uninterp spec fn flac_comments(f: FlacFile) -> Option<Seq<Entry>>;

/// The bytes of each picture block of a container, in order.
pub uninterp spec fn flac_pictures(f: FlacFile) -> Seq<Seq<u8>>;

/// The MIME type of each picture block of a container, in order.
pub uninterp spec fn flac_picture_mimes(f: FlacFile) -> Seq<Seq<char>>;

/// The bytes of a picture.
pub uninterp spec fn picture_bytes(p: Picture) -> Seq<u8>;

/// The MIME type of a picture, empty where it has none.
pub uninterp spec fn picture_mime(p: Picture) -> Seq<char>;

/// What a stream-info block gives: duration in milliseconds, sample rate,
/// audio bitrate, overall bitrate, bit depth, channel count.
pub type StreamInfo = (u64, u32, u32, u32, u8, u8);

/// What a container holds: its comment block's entries, if it has one; the
/// bytes and the MIME type of each picture; its stream-info values.
pub type FlacContents = (Option<Seq<Entry>>, Seq<Seq<u8>>, Seq<Seq<char>>, StreamInfo);

/// The values that a container's stream-info block gives.
pub uninterp spec fn flac_stream_info(f: FlacFile) -> StreamInfo;

/// What the container read from some bytes holds, or `None` where the bytes
/// do not read as a FLAC container.
pub uninterp spec fn parsed_flac(data: Seq<u8>) -> Option<FlacContents>;

/// What a parsed container holds.
pub open spec fn flac_contents(f: FlacFile) -> FlacContents {
    (flac_comments(f), flac_pictures(f), flac_picture_mimes(f), flac_stream_info(f))
}

/// Whether some bytes read as a FLAC container.
pub open spec fn flac_parses(data: Seq<u8>) -> bool {
    parsed_flac(data) is Some
}

/// Bytes that the library reads as a container: bytes that could hold a
/// legacy `COVERART` comment whose value decodes to fewer than eight bytes,
/// on which the reader would panic, are not handed to it.
pub open spec fn container_readable(data: Seq<u8>) -> bool {
    !holds_short_coverart(data) && flac_parses(data)
}

/// The comment block of the container that some bytes read as.
pub open spec fn parsed_comments(data: Seq<u8>) -> Option<Seq<Entry>> {
    parsed_flac(data)->Some_0.0
}

/// The picture bytes of the container that some bytes read as.
pub open spec fn parsed_pictures(data: Seq<u8>) -> Seq<Seq<u8>> {
    parsed_flac(data)->Some_0.1
}

/// The stream-info values of the container that some bytes read as.
pub open spec fn parsed_stream_info(data: Seq<u8>) -> StreamInfo {
    parsed_flac(data)->Some_0.3
}

/// Everything but the comment block is the same in two containers.
pub open spec fn same_but_comments(a: FlacFile, b: FlacFile) -> bool {
    &&& flac_pictures(a) == flac_pictures(b)
    &&& flac_picture_mimes(a) == flac_picture_mimes(b)
    &&& flac_stream_info(a) == flac_stream_info(b)
}

pub open spec fn title_key() -> Seq<char> {
    seq!['T', 'I', 'T', 'L', 'E']
}

pub open spec fn artist_key() -> Seq<char> {
    seq!['A', 'R', 'T', 'I', 'S', 'T']
}

pub open spec fn album_key() -> Seq<char> {
    seq!['A', 'L', 'B', 'U', 'M']
}

pub open spec fn genre_key() -> Seq<char> {
    seq!['G', 'E', 'N', 'R', 'E']
}

pub open spec fn track_number_key() -> Seq<char> {
    seq!['T', 'R', 'A', 'C', 'K', 'N', 'U', 'M', 'B', 'E', 'R']
}

pub open spec fn track_num_key() -> Seq<char> {
    seq!['T', 'R', 'A', 'C', 'K', 'N', 'U', 'M']
}

pub open spec fn track_total_key() -> Seq<char> {
    seq!['T', 'R', 'A', 'C', 'K', 'T', 'O', 'T', 'A', 'L']
}

pub open spec fn total_tracks_key() -> Seq<char> {
    seq!['T', 'O', 'T', 'A', 'L', 'T', 'R', 'A', 'C', 'K', 'S']
}

pub open spec fn disc_number_key() -> Seq<char> {
    seq!['D', 'I', 'S', 'C', 'N', 'U', 'M', 'B', 'E', 'R']
}

pub open spec fn disc_total_key() -> Seq<char> {
    seq!['D', 'I', 'S', 'C', 'T', 'O', 'T', 'A', 'L']
}

pub open spec fn total_discs_key() -> Seq<char> {
    seq!['T', 'O', 'T', 'A', 'L', 'D', 'I', 'S', 'C', 'S']
}

/// Relies on `AudioFile::read_from` for `FlacFile`, reading from the bytes
/// with fixed options: whether the bytes read as a container, and what it
/// then holds, depend on the bytes alone. Its reading of a legacy `COVERART`
/// comment slices the first eight decoded bytes without a length check, so
/// bytes that could hold one with a shorter value are excluded.
#[verifier::external_body]
pub(crate) fn parse_flac(data: &Vec<u8>) -> (r: Result<FlacFile, FileParseError>)
    requires
        !holds_short_coverart(data@),
    ensures
        r is Ok == flac_parses(data@),
        r matches Ok(f) ==> parsed_flac(data@) == Some(flac_contents(f)),
{
    let mut reader = std::io::Cursor::new(data.as_slice());
    FlacFile::read_from(&mut reader, ParseOptions::new())
}

/// The bytes that writing a container over some bytes gives, or `None`
/// where the write fails.
pub uninterp spec fn flac_written(f: FlacFile, source: Seq<u8>) -> Option<Seq<u8>>;

/// Relies on `AudioFile::save_to` for `FlacFile`, writing the container's
/// blocks over a copy of the bytes that it was read from, in memory and with
/// fixed options: whether it fails, and the bytes, depend on the container
/// and the bytes alone.
#[verifier::external_body]
pub(crate) fn encode_flac(f: &FlacFile, source: &Vec<u8>) -> (r: Result<Vec<u8>, FileEncodingError>)
    ensures
        match flac_written(*f, source@) {
            Some(b) => r matches Ok(w) && w@ == b,
            None => r is Err,
        },
{
    let mut file = std::io::Cursor::new(source.clone());
    match f.save_to(&mut file, WriteOptions::default()) {
        Ok(()) => Ok(file.into_inner()),
        Err(e) => Err(e),
    }
}

/// Relies on `FlacFile::vorbis_comments`: the container's comment block.
#[verifier::external_body]
pub(crate) fn comments_of(f: &FlacFile) -> (r: Option<&VorbisComments>)
    ensures
        match r {
            Some(c) => flac_comments(*f) == Some(comment_items(*c)),
            None => flac_comments(*f) is None,
        },
{
    f.vorbis_comments()
}

/// Relies on `FlacFile::remove_vorbis_comments`: takes the comment block out
/// of the container; the pictures stay.
#[verifier::external_body]
pub(crate) fn take_comments(f: &mut FlacFile) -> (r: Option<VorbisComments>)
    ensures
        match r {
            Some(c) => flac_comments(*old(f)) == Some(comment_items(c)),
            None => flac_comments(*old(f)) is None,
        },
        flac_comments(*final(f)) is None,
        same_but_comments(*final(f), *old(f)),
{
    f.remove_vorbis_comments()
}

/// Relies on `FlacFile::set_vorbis_comments`: puts a comment block in the
/// container; the pictures stay.
#[verifier::external_body]
pub(crate) fn put_comments(f: &mut FlacFile, c: VorbisComments)
    ensures
        flac_comments(*final(f)) == Some(comment_items(c)),
        same_but_comments(*final(f), *old(f)),
{
    let _ = f.set_vorbis_comments(c);
}

/// Relies on `VorbisComments::new`: a comment block without entries.
#[verifier::external_body]
pub(crate) fn new_comments() -> (r: VorbisComments)
    ensures
        comment_items(r) == Seq::<Entry>::empty(),
{
    VorbisComments::new()
}

/// Relies on `VorbisComments::get`: the value of the first entry whose key
/// equals `key` up to ASCII case, for a valid key.
#[verifier::external_body]
pub(crate) fn comment_get(c: &VorbisComments, key: &str) -> (r: Option<String>)
    requires
        crate::comments::valid_key(key@),
    ensures
        crate::detection::song::opt_text(r) == crate::comments::first_value(comment_items(*c), key@),
{
    match c.get(key) {
        Some(v) => Some(v.to_string()),
        None => None,
    }
}

/// Relies on `VorbisComments::insert`: drops the entries whose key matches,
/// then appends the new one; an invalid key is ignored.
#[verifier::external_body]
pub(crate) fn comment_insert(c: &mut VorbisComments, key: String, value: String)
    ensures
        comment_items(*final(c)) == inserted(comment_items(*old(c)), key@, value@),
{
    c.insert(key, value)
}

/// Relies on `Accessor::set_title` for `VorbisComments`: an insertion under `TITLE`.
#[verifier::external_body]
pub(crate) fn comment_set_title(c: &mut VorbisComments, value: String)
    ensures
        comment_items(*final(c)) == inserted(comment_items(*old(c)), title_key(), value@),
{
    c.set_title(value)
}

/// Relies on `Accessor::set_artist` for `VorbisComments`: an insertion under `ARTIST`.
#[verifier::external_body]
pub(crate) fn comment_set_artist(c: &mut VorbisComments, value: String)
    ensures
        comment_items(*final(c)) == inserted(comment_items(*old(c)), artist_key(), value@),
{
    c.set_artist(value)
}

/// Relies on `Accessor::set_album` for `VorbisComments`: an insertion under `ALBUM`.
#[verifier::external_body]
pub(crate) fn comment_set_album(c: &mut VorbisComments, value: String)
    ensures
        comment_items(*final(c)) == inserted(comment_items(*old(c)), album_key(), value@),
{
    c.set_album(value)
}

/// Relies on `Accessor::set_genre` for `VorbisComments`: an insertion under `GENRE`.
#[verifier::external_body]
pub(crate) fn comment_set_genre(c: &mut VorbisComments, value: String)
    ensures
        comment_items(*final(c)) == inserted(comment_items(*old(c)), genre_key(), value@),
{
    c.set_genre(value)
}

/// Relies on `Accessor::set_disk` for `VorbisComments`: an insertion of the
/// decimal text under `DISCNUMBER`.
#[verifier::external_body]
pub(crate) fn comment_set_disc(c: &mut VorbisComments, value: u32)
    ensures
        comment_items(*final(c)) == inserted(comment_items(*old(c)), disc_number_key(), dec_text(value as nat)),
{
    c.set_disk(value)
}

/// Relies on `Accessor::set_track` for `VorbisComments`: removes the entries
/// under `TRACKNUMBER` and `TRACKNUM` (the removal may reorder the others),
/// then appends the decimal text under `TRACKNUMBER`.
#[verifier::external_body]
pub(crate) fn comment_set_track(c: &mut VorbisComments, value: u32)
    ensures
        comment_items(*final(c)).len() > 0,
        comment_items(*final(c)).last() == (track_number_key(), dec_text(value as nat)),
        comment_items(*final(c)).drop_last().to_multiset() == without_key(
            without_key(comment_items(*old(c)), track_number_key()),
            track_num_key(),
        ).to_multiset(),
{
    c.set_track(value)
}

/// Relies on `Accessor::set_track_total` for `VorbisComments`: an insertion
/// of the decimal text under `TRACKTOTAL`, then a removal of the entries
/// under `TOTALTRACKS`, which may reorder the others.
#[verifier::external_body]
pub(crate) fn comment_set_track_total(c: &mut VorbisComments, value: u32)
    ensures
        comment_items(*final(c)).to_multiset() == without_key(
            inserted(comment_items(*old(c)), track_total_key(), dec_text(value as nat)),
            total_tracks_key(),
        ).to_multiset(),
{
    c.set_track_total(value)
}

/// Relies on `Accessor::set_disk_total` for `VorbisComments`: an insertion
/// of the decimal text under `DISCTOTAL`, then a removal of the entries
/// under `TOTALDISCS`, which may reorder the others.
#[verifier::external_body]
pub(crate) fn comment_set_disc_total(c: &mut VorbisComments, value: u32)
    ensures
        comment_items(*final(c)).to_multiset() == without_key(
            inserted(comment_items(*old(c)), disc_total_key(), dec_text(value as nat)),
            total_discs_key(),
        ).to_multiset(),
{
    c.set_disk_total(value)
}

/// Relies on `OggPictureStorage::pictures` for `FlacFile`: the bytes of each
/// picture, in order.
#[verifier::external_body]
pub(crate) fn picture_list(f: &FlacFile) -> (r: Vec<Vec<u8>>)
    ensures
        r@.len() == flac_pictures(*f).len(),
        forall|i: int| 0 <= i < r@.len() ==> (#[trigger] r@[i])@ == flac_pictures(*f)[i],
{
    f.pictures().iter().map(|(p, _)| p.data().to_vec()).collect()
}

/// Relies on `OggPictureStorage::set_picture` for `FlacFile`: replaces the
/// picture at `index`, or, in a container without pictures, adds it; the
/// comment block and the stream-info values stay.
#[verifier::external_body]
pub(crate) fn put_picture(f: &mut FlacFile, index: usize, p: Picture, info: PictureInformation)
    requires
        index < flac_pictures(*old(f)).len() || flac_pictures(*old(f)).len() == 0,
    ensures
        flac_pictures(*final(f)) == if flac_pictures(*old(f)).len() == 0 {
            seq![picture_bytes(p)]
        } else {
            flac_pictures(*old(f)).update(index as int, picture_bytes(p))
        },
        flac_picture_mimes(*final(f)) == if flac_pictures(*old(f)).len() == 0 {
            seq![picture_mime(p)]
        } else {
            flac_picture_mimes(*old(f)).update(index as int, picture_mime(p))
        },
        flac_comments(*final(f)) == flac_comments(*old(f)),
        flac_stream_info(*final(f)) == flac_stream_info(*old(f)),
{
    f.set_picture(index, p, info)
}

/// Relies on `OggPictureStorage::remove_picture` for `FlacFile`: removes the
/// picture at `index` and hands back its bytes; the comment block and the
/// stream-info values stay.
#[verifier::external_body]
pub(crate) fn take_picture(f: &mut FlacFile, index: usize) -> (r: Vec<u8>)
    requires
        index < flac_pictures(*old(f)).len(),
    ensures
        r@ == flac_pictures(*old(f))[index as int],
        flac_pictures(*final(f)) == flac_pictures(*old(f)).remove(index as int),
        flac_picture_mimes(*final(f)) == flac_picture_mimes(*old(f)).remove(index as int),
        flac_comments(*final(f)) == flac_comments(*old(f)),
        flac_stream_info(*final(f)) == flac_stream_info(*old(f)),
{
    f.remove_picture(index).0.into_data()
}

/// Relies on `Picture::from_reader`: the picture holds the bytes read;
/// fewer than eight bytes are refused; at least eight bytes that open with
/// the PNG signature or the JPEG marker are accepted, with the MIME type of
/// that kind.
#[verifier::external_body]
pub(crate) fn picture_from_bytes(data: &Vec<u8>) -> (r: Result<Picture, PictureParseError>)
    ensures
        r matches Ok(p) ==> picture_bytes(p) == data@,
        r is Ok ==> data@.len() >= 8,
        r matches Ok(p) && image_kind(data@) matches Some(k) ==> picture_mime(p) == k.0,
        data@.len() >= 8 && (has_png_signature(data@) || has_jpeg_marker(data@)) ==> r is Ok,
{
    let mut reader = std::io::Cursor::new(data.as_slice());
    Picture::from_reader(&mut reader)
}

/// Relies on `PictureInformation::from_picture`: fails only on a picture of
/// fewer than eight bytes. Its JPEG reader does unchecked arithmetic on
/// header fields, so a JPEG header whose walk would overflow is excluded.
#[verifier::external_body]
pub(crate) fn picture_information(p: &Picture) -> (r: Result<PictureInformation, PictureParseError>)
    requires
        jpeg_header_readable(picture_bytes(*p)),
    ensures
        r is Ok <==> picture_bytes(*p).len() >= 8,
{
    PictureInformation::from_picture(p)
}

/// Relies on `PictureInformation::default`: zeroed image metadata.
#[verifier::external_body]
pub(crate) fn blank_picture_information() -> (r: PictureInformation) {
    PictureInformation::default()
}

/// Relies on `AudioFile::properties` for `FlacFile`: the values read from
/// the stream-info block.
#[verifier::external_body]
pub(crate) fn stream_info(f: &FlacFile) -> (r: StreamInfo)
    ensures
        r == flac_stream_info(*f),
{
    let p = f.properties();
    (
        p.duration().as_millis() as u64,
        p.sample_rate(),
        p.audio_bitrate(),
        p.overall_bitrate(),
        p.bit_depth(),
        p.channels(),
    )
}

/// Reads the container held by `data`; bytes that are not read as one give
/// `CorruptContainer`.
pub fn read_container(data: &Vec<u8>) -> (r: Result<FlacFile, MediaError>)
    ensures
        r is Ok == container_readable(data@),
        r matches Ok(f) ==> parsed_flac(data@) == Some(flac_contents(f)),
        r matches Err(e) ==> e == MediaError::CorruptContainer,
{
    if holds_short_coverart_comment(data) {
        return Err(MediaError::CorruptContainer);
    }
    match parse_flac(data) {
        Ok(f) => Ok(f),
        Err(_) => Err(MediaError::CorruptContainer),
    }
}

fn same_bytes(a: &Vec<u8>, b: &Vec<u8>) -> (r: bool)
    ensures
        r == (a@ == b@),
{
    if a.len() != b.len() {
        return false;
    }
    let mut i: usize = 0;
    while i < a.len()
        invariant
            a@.len() == b@.len(),
            i <= a@.len(),
            forall|j: int| 0 <= j < i ==> a@[j] == b@[j],
        decreases a@.len() - i,
    {
        if a[i] != b[i] {
            return false;
        }
        i = i + 1;
    }
    assert(a@ =~= b@);
    true
}

fn same_picture_lists(a: &Vec<Vec<u8>>, b: &Vec<Vec<u8>>) -> (r: bool)
    ensures
        r == (a@.len() == b@.len() && forall|j: int| 0 <= j < a@.len() ==> (#[trigger] a@[j])@ == b@[j]@),
{
    if a.len() != b.len() {
        return false;
    }
    let mut i: usize = 0;
    while i < a.len()
        invariant
            a@.len() == b@.len(),
            i <= a@.len(),
            forall|j: int| 0 <= j < i ==> (#[trigger] a@[j])@ == b@[j]@,
        decreases a@.len() - i,
    {
        if !same_bytes(&a[i], &b[i]) {
            return false;
        }
        i = i + 1;
    }
    true
}

/// Whether writing a container over `source` gives bytes that read as a
/// container with the same pictures.
pub open spec fn writes_back(f: FlacFile, source: Seq<u8>) -> bool {
    flac_written(f, source) matches Some(b) && container_readable(b) && parsed_pictures(b) == flac_pictures(f)
}

/// Writes the container back over `source` and reads the result again. The
/// write counts as done only where the bytes written read as a container
/// with the same pictures; otherwise it is an `IoError`. Also hands back the
/// container read again, for further checks.
pub fn write_container(file: &FlacFile, source: &Vec<u8>) -> (r: Result<(Vec<u8>, FlacFile), MediaError>)
    ensures
        r is Ok == writes_back(*file, source@),
        r matches Ok((b, _)) ==> flac_written(*file, source@) == Some(b@),
        r matches Ok((b, g)) ==> container_readable(b@) && parsed_flac(b@) == Some(flac_contents(g))
            && parsed_pictures(b@) == flac_pictures(*file),
        r matches Err(e) ==> e == MediaError::IoError,
{
    let bytes = match encode_flac(file, source) {
        Ok(b) => b,
        Err(_) => return Err(MediaError::IoError),
    };
    let again = match read_container(&bytes) {
        Ok(f) => f,
        Err(_) => return Err(MediaError::IoError),
    };
    let expected = picture_list(file);
    let found = picture_list(&again);
    if !same_picture_lists(&found, &expected) {
        return Err(MediaError::IoError);
    }
    assert forall|j: int| 0 <= j < flac_pictures(again).len() implies flac_pictures(again)[j] == flac_pictures(
        *file,
    )[j] by {
        assert(found@[j]@ == expected@[j]@);
    }
    assert(flac_pictures(again) =~= flac_pictures(*file));
    Ok((bytes, again))
}

} // verus!
