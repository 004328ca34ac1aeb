//! The ordered picture list of a container. Every operation addresses the
//! first picture; reading a missing picture gives empty bytes, while removing
//! one is an error.
use vstd::prelude::*;

use lofty::flac::FlacFile;

use crate::detection::coverart::{file_type_from_data, image_kind};
use crate::flac::{
    blank_picture_information, comments_of, container_readable, flac_comments, flac_picture_mimes,
    flac_pictures, flac_stream_info, new_comments, parsed_pictures, picture_from_bytes,
    picture_information, picture_list, put_comments, put_picture, read_container, take_picture,
    write_container, writes_back,
};
use crate::jpeg::jpeg_header_is_readable;
use crate::types::MediaError;

verus! {

/// The picture list after `image` is placed first: it replaces the first
/// picture, or becomes the only one in an empty list.
pub open spec fn placed_first(pics: Seq<Seq<u8>>, image: Seq<u8>) -> Seq<Seq<u8>> {
    if pics.len() == 0 {
        seq![image]
    } else {
        pics.update(0, image)
    }
}

/// An image that can be embedded: PNG or JPEG by its leading bytes, and at
/// least eight bytes long.
pub open spec fn embeddable(image: Seq<u8>) -> bool {
    image_kind(image) is Some && image.len() >= 8
}

fn copy_bytes(v: &Vec<u8>) -> (r: Vec<u8>)
    ensures
        r@ == v@,
{
    let r = v.clone();
    assert(r@ =~= v@);
    r
}

/// Whether the container holds pictures, and how many.
pub fn contains_coverart_in(file: &FlacFile) -> (r: (bool, usize))
    ensures
        r.0 == (flac_pictures(*file).len() > 0),
        r.1 == flac_pictures(*file).len(),
{
    let pics = picture_list(file);
    (pics.len() > 0, pics.len())
}

/// The bytes of the first picture, or no bytes where there is none.
pub fn get_coverart_in(file: &FlacFile) -> (r: Vec<u8>)
    ensures
        flac_pictures(*file).len() == 0 ==> r@ == Seq::<u8>::empty(),
        flac_pictures(*file).len() > 0 ==> r@ == flac_pictures(*file)[0],
{
    let pics = picture_list(file);
    if pics.len() == 0 {
        Vec::new()
    } else {
        copy_bytes(&pics[0])
    }
}

/// Places `image` first in the container's picture list, with the MIME type
/// of its kind, and returns its bytes. The image metadata is derived from its
/// header, or left zeroed for a JPEG header whose fields cannot be walked. An
/// image that is not PNG or JPEG, or too short to describe, is refused and
/// the container is left as it was. The comment block and the stream-info
/// values stay.
pub fn set_coverart_in(file: &mut FlacFile, image: &Vec<u8>) -> (r: Result<Vec<u8>, MediaError>)
    ensures
        flac_comments(*final(file)) == flac_comments(*old(file)),
        flac_stream_info(*final(file)) == flac_stream_info(*old(file)),
        embeddable(image@) ==> {
            &&& r matches Ok(b) && b@ == image@
            &&& flac_pictures(*final(file)) == placed_first(flac_pictures(*old(file)), image@)
            &&& flac_picture_mimes(*final(file)) == if flac_pictures(*old(file)).len() == 0 {
                seq![image_kind(image@)->Some_0.0]
            } else {
                flac_picture_mimes(*old(file)).update(0, image_kind(image@)->Some_0.0)
            }
        },
        !embeddable(image@) ==> {
            &&& r == Err::<Vec<u8>, MediaError>(MediaError::UnsupportedImageFormat)
            &&& flac_pictures(*final(file)) == flac_pictures(*old(file))
            &&& flac_picture_mimes(*final(file)) == flac_picture_mimes(*old(file))
        },
{
    if file_type_from_data(image).is_err() {
        return Err(MediaError::UnsupportedImageFormat);
    }
    let pic = match picture_from_bytes(image) {
        Ok(p) => p,
        Err(_) => return Err(MediaError::UnsupportedImageFormat),
    };
    let info = if jpeg_header_is_readable(image) {
        match picture_information(&pic) {
            Ok(i) => i,
            Err(_) => return Err(MediaError::UnsupportedImageFormat),
        }
    } else {
        blank_picture_information()
    };
    put_picture(file, 0, pic, info);
    Ok(copy_bytes(image))
}

/// Removes the first picture and returns its bytes; a container without
/// pictures is an error and stays as it was. The comment block and the
/// stream-info values stay.
pub fn remove_coverart_in(file: &mut FlacFile) -> (r: Result<Vec<u8>, MediaError>)
    ensures
        flac_comments(*final(file)) == flac_comments(*old(file)),
        flac_stream_info(*final(file)) == flac_stream_info(*old(file)),
        flac_pictures(*old(file)).len() == 0 ==> {
            &&& r == Err::<Vec<u8>, MediaError>(MediaError::NoPictureFound)
            &&& flac_pictures(*final(file)) == flac_pictures(*old(file))
            &&& flac_picture_mimes(*final(file)) == flac_picture_mimes(*old(file))
        },
        flac_pictures(*old(file)).len() > 0 ==> {
            &&& r matches Ok(b) && b@ == flac_pictures(*old(file))[0]
            &&& flac_pictures(*final(file)) == flac_pictures(*old(file)).drop_first()
            &&& flac_picture_mimes(*final(file)) == flac_picture_mimes(*old(file)).remove(0)
        },
{
    let pics = picture_list(file);
    if pics.len() == 0 {
        return Err(MediaError::NoPictureFound);
    }
    let b = take_picture(file, 0);
    assert(flac_pictures(*old(file)).remove(0) =~= flac_pictures(*old(file)).drop_first());
    Ok(b)
}

/// Whether the container held by `song` holds pictures, and how many.
pub fn contains_coverart(song: &Vec<u8>) -> (r: Result<(bool, usize), MediaError>)
    ensures
        !container_readable(song@) ==> r == Err::<(bool, usize), MediaError>(MediaError::CorruptContainer),
        container_readable(song@) ==> (r matches Ok(p) && p.0 == (parsed_pictures(song@).len() > 0)
            && p.1 == parsed_pictures(song@).len()),
{
    match read_container(song) {
        Err(e) => Err(e),
        Ok(f) => Ok(contains_coverart_in(&f)),
    }
}

/// The bytes of the first picture of the container held by `song`, or no
/// bytes where it has none.
pub fn get_coverart(song: &Vec<u8>) -> (r: Result<Vec<u8>, MediaError>)
    ensures
        !container_readable(song@) ==> r == Err::<Vec<u8>, MediaError>(MediaError::CorruptContainer),
        container_readable(song@) ==> (r matches Ok(b) && b@ == if parsed_pictures(song@).len() == 0 {
            Seq::<u8>::empty()
        } else {
            parsed_pictures(song@)[0]
        }),
{
    match read_container(song) {
        Err(e) => Err(e),
        Ok(f) => Ok(get_coverart_in(&f)),
    }
}

/// Places `coverart` first among the pictures of the container held by
/// `song`, replaces `song` with the container written back, and returns the
/// embedded bytes. The bytes written are read again, and must hold the
/// pictures placed; otherwise the write is an `IoError`. Any failure leaves
/// `song` as it was.
pub fn set_coverart(song: &mut Vec<u8>, coverart: &Vec<u8>) -> (r: Result<Vec<u8>, MediaError>)
    ensures
        r matches Ok(b) ==> b@ == coverart@,
        r is Err ==> *final(song) == *old(song),
        !embeddable(coverart@) ==> r == Err::<Vec<u8>, MediaError>(MediaError::UnsupportedImageFormat),
        embeddable(coverart@) && !container_readable(old(song)@) ==> r == Err::<Vec<u8>, MediaError>(
            MediaError::CorruptContainer,
        ),
        embeddable(coverart@) && container_readable(old(song)@) ==> r is Ok || (r == Err::<Vec<u8>, MediaError>(
            MediaError::IoError,
        ) && exists|f: FlacFile|
            flac_pictures(f) == placed_first(parsed_pictures(old(song)@), coverart@) && !#[trigger] writes_back(
                f,
                old(song)@,
            )),
        r is Ok ==> container_readable(final(song)@) && parsed_pictures(final(song)@) == placed_first(
            parsed_pictures(old(song)@),
            coverart@,
        ),
{
    if file_type_from_data(coverart).is_err() || coverart.len() < 8 {
        return Err(MediaError::UnsupportedImageFormat);
    }
    let mut file = match read_container(song) {
        Err(e) => return Err(e),
        Ok(f) => f,
    };
    let embedded = match set_coverart_in(&mut file, coverart) {
        Err(e) => return Err(e),
        Ok(b) => b,
    };
    match write_container(&file, song) {
        Err(e) => Err(e),
        Ok((bytes, _)) => {
            *song = bytes;
            Ok(embedded)
        },
    }
}

/// Removes the first picture of the container held by `song`, replaces
/// `song` with the container written back, and returns the picture's bytes.
/// The bytes written are read again, and must hold the remaining pictures;
/// otherwise the write is an `IoError`. Any failure leaves `song` as it was.
pub fn remove_coverart(song: &mut Vec<u8>) -> (r: Result<Vec<u8>, MediaError>)
    ensures
        r is Err ==> *final(song) == *old(song),
        !container_readable(old(song)@) ==> r == Err::<Vec<u8>, MediaError>(MediaError::CorruptContainer),
        container_readable(old(song)@) && parsed_pictures(old(song)@).len() == 0 ==> r == Err::<Vec<u8>, MediaError>(
            MediaError::NoPictureFound,
        ),
        container_readable(old(song)@) && parsed_pictures(old(song)@).len() > 0 ==> (r matches Ok(b) && b@
            == parsed_pictures(old(song)@)[0]) || (r == Err::<Vec<u8>, MediaError>(MediaError::IoError)
            && exists|f: FlacFile|
            flac_pictures(f) == parsed_pictures(old(song)@).drop_first() && !#[trigger] writes_back(
                f,
                old(song)@,
            )),
        r is Ok ==> container_readable(final(song)@) && parsed_pictures(final(song)@) == parsed_pictures(
            old(song)@,
        ).drop_first(),
{
    let mut file = match read_container(song) {
        Err(e) => return Err(e),
        Ok(f) => f,
    };
    let removed = match remove_coverart_in(&mut file) {
        Err(e) => return Err(e),
        Ok(b) => b,
    };
    if comments_of(&file).is_none() {
        // Without a comment block and with no picture left, the writer would
        // leave the bytes as they were; an empty block makes it rewrite the
        // metadata, and an empty block itself is not written.
        put_comments(&mut file, new_comments());
    }
    match write_container(&file, song) {
        Err(e) => Err(e),
        Ok((bytes, _)) => {
            *song = bytes;
            Ok(removed)
        },
    }
}

/// Once `set_coverart_in` has placed an image in a container, which is what
/// its contract says of `after`, `contains_coverart_in` reports at least one
/// picture and `get_coverart_in` returns the image byte for byte.
pub proof fn lemma_set_then_read(before: FlacFile, after: FlacFile, image: Seq<u8>)
    requires
        flac_pictures(after) == placed_first(flac_pictures(before), image),
    ensures
        flac_pictures(after).len() >= 1,
        flac_pictures(after)[0] == image,
{
}

/// Once `remove_coverart_in` has removed the picture of a container that
/// held one, `contains_coverart_in` reports none.
pub proof fn lemma_remove_only_picture(before: FlacFile, after: FlacFile)
    requires
        flac_pictures(before).len() == 1,
        flac_pictures(after) == flac_pictures(before).drop_first(),
    ensures
        flac_pictures(after).len() == 0,
{
}

} // verus!
