//! Reading and writing semantic fields in a container's comment block.
use vstd::prelude::*;

use lofty::flac::FlacFile;
use lofty::ogg::tag::VorbisComments;

use crate::comments::{
    first_value, inserted, lemma_first_value_skip, lemma_inserted_reads_back, lemma_same_entries_no_match,
    lemma_without_two_keys_no_match, valid_key, without_key, Entry,
};
use crate::decimal::{dec_text, parse_u32, parse_u32_text, u32_to_text};
use crate::detection::song::opt_text;
use crate::detection::text_eq;
use crate::flac::{
    comment_get, comment_insert, comment_items, comment_set_album, comment_set_artist,
    comment_set_disc, comment_set_disc_total, comment_set_genre, comment_set_title,
    comment_set_track, comment_set_track_total, comments_of, container_readable, disc_number_key,
    disc_total_key, flac_comments, flac_pictures, flac_written, parsed_comments, parsed_pictures,
    put_comments, read_container, same_but_comments, take_comments, total_discs_key,
    total_tracks_key, track_num_key, track_number_key, track_total_key, write_container,
    writes_back,
};
use crate::types::{get_type, is_numeric, is_numeric_field, key_of, storage, MediaError, Storage, Type};

verus! {

/// What writing the number `n` to a numeric field leaves in a comment block
/// that held `old`. The track number and the totals go through the tag's own
/// accessors, which also clear the alternative keys and may reorder the
/// entries that stay.
pub open spec fn numeric_stored(t: Type, old: Seq<Entry>, new: Seq<Entry>, n: u32) -> bool {
    let text = dec_text(n as nat);
    match t {
        Type::Track => new.len() > 0 && new.last() == (track_number_key(), text)
            && new.drop_last().to_multiset() == without_key(
            without_key(old, track_number_key()),
            track_num_key(),
        ).to_multiset(),
        Type::Disc => new == inserted(old, disc_number_key(), text),
        Type::TrackCount => new.to_multiset() == without_key(
            inserted(old, track_total_key(), text),
            total_tracks_key(),
        ).to_multiset(),
        _ => new.to_multiset() == without_key(
            inserted(old, disc_total_key(), text),
            total_discs_key(),
        ).to_multiset(),
    }
}

/// What writing `value` to field `t` leaves in a comment block that held
/// `old`: a text field gets the value under its key, replacing the entries
/// with a matching key; a numeric field gets the number that the value reads as.
pub open spec fn stored(t: Type, old: Seq<Entry>, new: Seq<Entry>, value: Seq<char>) -> bool {
    if is_numeric(t) {
        parse_u32(value) matches Some(n) && numeric_stored(t, old, new, n)
    } else {
        new == inserted(old, key_of(t), value)
    }
}

/// The key under which a write to field `t` stores its value: the field's
/// key, but for the totals, which the tag's accessors store under
/// `TRACKTOTAL` and `DISCTOTAL`.
pub open spec fn written_key(t: Type) -> Seq<char> {
    match t {
        Type::TrackCount => track_total_key(),
        Type::DiscCount => disc_total_key(),
        _ => key_of(t),
    }
}

/// The text that a write of `value` to field `t` stores: the value, or for a
/// numeric field the decimal text of the number it reads as.
pub open spec fn written_text(t: Type, value: Seq<char>) -> Seq<char> {
    if is_numeric(t) {
        dec_text(parse_u32(value)->Some_0 as nat)
    } else {
        value
    }
}

fn written_key_text(t: Type) -> (r: String)
    ensures
        r@ == written_key(t),
{
    match t {
        Type::TrackCount => {
            let k = String::from_str("TRACKTOTAL");
            proof {
                reveal_strlit("TRACKTOTAL");
            }
            assert(k@ =~= track_total_key());
            k
        },
        Type::DiscCount => {
            let k = String::from_str("DISCTOTAL");
            proof {
                reveal_strlit("DISCTOTAL");
            }
            assert(k@ =~= disc_total_key());
            k
        },
        _ => match get_type(t) {
            Ok(k) => k,
            Err(_) => String::new(),
        },
    }
}

/// Whether writing a container over `source` gives bytes that read as a
/// container with the same pictures and with the text written to field `t`
/// first under the key written.
pub open spec fn meta_written_back(f: FlacFile, source: Seq<u8>, t: Type, value: Seq<char>) -> bool {
    &&& writes_back(f, source)
    &&& parsed_comments(flac_written(f, source)->Some_0) matches Some(items)
        && first_value(items, written_key(t)) == Some(written_text(t, value))
}

/// Every key that a write stores under is a key that a comment block accepts.
pub proof fn lemma_written_keys_valid(t: Type)
    ensures
        valid_key(written_key(t)),
{
    let k = written_key(t);
    assert forall|i: int| 0 <= i < k.len() implies 0x20 <= (#[trigger] k[i]) as u32 <= 0x7D && k[i] != '=' by {
        assert('A' <= k[i] <= 'Z');
    }
}

/// Every field's key is a key that a comment block accepts.
pub proof fn lemma_keys_valid(t: Type)
    ensures
        valid_key(key_of(t)),
{
    let k = key_of(t);
    assert forall|i: int| 0 <= i < k.len() implies 0x20 <= (#[trigger] k[i]) as u32 <= 0x7D && k[i] != '=' by {
        assert('A' <= k[i] <= 'Z');
    }
}

/// The value stored under a field in a comment block.
pub fn get_meta_from(t: Type, comments: &VorbisComments) -> (r: Result<String, MediaError>)
    ensures
        match first_value(comment_items(*comments), key_of(t)) {
            Some(v) => r matches Ok(s) && s@ == v,
            None => r == Err::<String, MediaError>(MediaError::FieldNotFound),
        },
{
    let key = match get_type(t) {
        Ok(k) => k,
        Err(e) => return Err(e),
    };
    proof {
        lemma_keys_valid(t);
    }
    match comment_get(comments, key.as_str()) {
        Some(v) => Ok(v),
        None => Err(MediaError::FieldNotFound),
    }
}

/// The value stored under a field in a container's comment block.
pub fn get_meta_in(t: Type, file: &FlacFile) -> (r: Result<String, MediaError>)
    ensures
        match flac_comments(*file) {
            None => r == Err::<String, MediaError>(MediaError::NoTagBlock),
            Some(items) => match first_value(items, key_of(t)) {
                Some(v) => r matches Ok(s) && s@ == v,
                None => r == Err::<String, MediaError>(MediaError::FieldNotFound),
            },
        },
{
    match comments_of(file) {
        None => Err(MediaError::NoTagBlock),
        Some(c) => get_meta_from(t, c),
    }
}

/// Writes `value` to field `t` of a comment block. A numeric field takes the
/// value only where it reads as an unsigned integer; otherwise the block is
/// left as it was.
pub fn set_meta_on(t: Type, comments: &mut VorbisComments, value: &String) -> (r: Result<String, MediaError>)
    ensures
        if is_numeric(t) && parse_u32(value@) is None {
            &&& r == Err::<String, MediaError>(MediaError::InvalidNumericValue)
            &&& comment_items(*final(comments)) == comment_items(*old(comments))
        } else {
            &&& r matches Ok(s) && s@ == value@
            &&& stored(t, comment_items(*old(comments)), comment_items(*final(comments)), value@)
        },
{
    if is_numeric_field(t) {
        let n = match parse_u32_text(value.as_str()) {
            Some(n) => n,
            None => return Err(MediaError::InvalidNumericValue),
        };
        match t {
            Type::Track => comment_set_track(comments, n),
            Type::Disc => comment_set_disc(comments, n),
            Type::TrackCount => comment_set_track_total(comments, n),
            _ => comment_set_disc_total(comments, n),
        }
    } else {
        match storage(t) {
            Storage::Structured => match t {
                Type::Title => comment_set_title(comments, value.clone()),
                Type::Artist => comment_set_artist(comments, value.clone()),
                Type::Album => comment_set_album(comments, value.clone()),
                _ => comment_set_genre(comments, value.clone()),
            },
            Storage::RawKeyValue => {
                let key = match get_type(t) {
                    Ok(k) => k,
                    Err(e) => return Err(e),
                };
                comment_insert(comments, key, value.clone());
            },
        }
    }
    Ok(value.clone())
}

/// Writes `value` to field `t` of a container's comment block. A container
/// without a comment block, and text that a numeric field cannot take, are
/// refused and leave the container as it was. The pictures and the
/// stream-info values stay.
pub fn set_meta_in(t: Type, file: &mut FlacFile, value: &String) -> (r: Result<String, MediaError>)
    ensures
        same_but_comments(*final(file), *old(file)),
        match flac_comments(*old(file)) {
            None => {
                &&& r == Err::<String, MediaError>(MediaError::NoTagBlock)
                &&& flac_comments(*final(file)) is None
            },
            Some(items) => if is_numeric(t) && parse_u32(value@) is None {
                &&& r == Err::<String, MediaError>(MediaError::InvalidNumericValue)
                &&& flac_comments(*final(file)) == Some(items)
            } else {
                &&& r matches Ok(s) && s@ == value@
                &&& flac_comments(*final(file)) matches Some(new) && stored(t, items, new, value@)
            },
        },
{
    let mut comments = match take_comments(file) {
        Some(c) => c,
        None => return Err(MediaError::NoTagBlock),
    };
    let r = set_meta_on(t, &mut comments, value);
    put_comments(file, comments);
    r
}

/// The value stored under a field in the container held by `data`.
pub fn get_meta(t: Type, data: &Vec<u8>) -> (r: Result<String, MediaError>)
    ensures
        !container_readable(data@) ==> r == Err::<String, MediaError>(MediaError::CorruptContainer),
        container_readable(data@) ==> match parsed_comments(data@) {
            None => r == Err::<String, MediaError>(MediaError::NoTagBlock),
            Some(items) => match first_value(items, key_of(t)) {
                Some(v) => r matches Ok(s) && s@ == v,
                None => r == Err::<String, MediaError>(MediaError::FieldNotFound),
            },
        },
{
    match read_container(data) {
        Err(e) => Err(e),
        Ok(f) => get_meta_in(t, &f),
    }
}

/// Writes `value` to field `t` of the container held by `data`, and replaces
/// `data` with the container written back. The bytes written are read again,
/// and must hold the written text first under the written key and the same
/// pictures; otherwise the write is an `IoError`. Any failure leaves `data`
/// as it was.
pub fn set_meta(t: Type, data: &mut Vec<u8>, value: &String) -> (r: Result<String, MediaError>)
    ensures
        r matches Ok(s) ==> s@ == value@,
        r is Err ==> *final(data) == *old(data),
        !container_readable(old(data)@) ==> r == Err::<String, MediaError>(MediaError::CorruptContainer),
        container_readable(old(data)@) && parsed_comments(old(data)@) is None ==> r == Err::<String, MediaError>(
            MediaError::NoTagBlock,
        ),
        container_readable(old(data)@) && parsed_comments(old(data)@) is Some && is_numeric(t) && parse_u32(value@) is None
            ==> r == Err::<String, MediaError>(MediaError::InvalidNumericValue),
        container_readable(old(data)@) && parsed_comments(old(data)@) is Some && !(is_numeric(t) && parse_u32(
            value@,
        ) is None) ==> r is Ok || (r == Err::<String, MediaError>(MediaError::IoError) && exists|f: FlacFile|
            {
                &&& parsed_comments(old(data)@) matches Some(items) && flac_comments(f) matches Some(new)
                    && stored(t, items, new, value@)
                &&& flac_pictures(f) == parsed_pictures(old(data)@)
                &&& !#[trigger] meta_written_back(f, old(data)@, t, value@)
            }),
        r is Ok ==> {
            &&& container_readable(final(data)@)
            &&& parsed_comments(final(data)@) matches Some(items)
                && first_value(items, written_key(t)) == Some(written_text(t, value@))
            &&& parsed_pictures(final(data)@) == parsed_pictures(old(data)@)
        },
{
    let mut file = match read_container(data) {
        Err(e) => return Err(e),
        Ok(f) => f,
    };
    let written = match set_meta_in(t, &mut file, value) {
        Err(e) => return Err(e),
        Ok(s) => s,
    };
    let (bytes, again) = match write_container(&file, data) {
        Err(e) => {
            assert(!meta_written_back(file, data@, t, value@));
            return Err(e);
        },
        Ok(w) => w,
    };
    let key = written_key_text(t);
    let text = if is_numeric_field(t) {
        match parse_u32_text(value.as_str()) {
            Some(n) => u32_to_text(n),
            None => return Err(MediaError::InvalidNumericValue),
        }
    } else {
        value.clone()
    };
    assert(text@ == written_text(t, value@));
    proof {
        lemma_written_keys_valid(t);
    }
    let found = match comments_of(&again) {
        Some(c) => comment_get(c, key.as_str()),
        None => None,
    };
    let ghost stored_first = match parsed_comments(bytes@) {
        Some(items) => first_value(items, written_key(t)),
        None => None,
    };
    assert(opt_text(found) == stored_first);
    match found {
        Some(v) => {
            if text_eq(v.as_str(), text.as_str()) {
                *data = bytes;
                Ok(written)
            } else {
                assert(!meta_written_back(file, data@, t, value@));
                Err(MediaError::IoError)
            }
        },
        None => {
            assert(!meta_written_back(file, data@, t, value@));
            Err(MediaError::IoError)
        },
    }
}

/// For a text field, the value that a successful write stored is what a
/// read of the field then returns.
pub proof fn lemma_text_round_trip(t: Type, old: Seq<Entry>, new: Seq<Entry>, value: Seq<char>)
    requires
        !is_numeric(t),
        stored(t, old, new, value),
    ensures
        first_value(new, key_of(t)) == Some(value),
{
    lemma_keys_valid(t);
    lemma_inserted_reads_back(old, key_of(t), value);
}

/// For the track and disc numbers, a successful write reads back as the
/// decimal text of the number written.
pub proof fn lemma_number_round_trip(t: Type, old: Seq<Entry>, new: Seq<Entry>, value: Seq<char>)
    requires
        t == Type::Track || t == Type::Disc,
        stored(t, old, new, value),
    ensures
        parse_u32(value) matches Some(n) && first_value(new, key_of(t)) == Some(dec_text(n as nat)),
{
    let n = parse_u32(value)->Some_0;
    let text = dec_text(n as nat);
    lemma_keys_valid(t);
    if t == Type::Disc {
        lemma_inserted_reads_back(old, key_of(t), text);
    } else {
        let k = track_number_key();
        let w = without_key(without_key(old, k), track_num_key());
        lemma_without_two_keys_no_match(old, k, track_num_key());
        lemma_same_entries_no_match(new.drop_last(), w, k);
        lemma_first_value_skip(new.drop_last(), seq![new.last()], k);
        assert(new.drop_last() + seq![new.last()] =~= new);
        assert(seq![new.last()].drop_first() =~= Seq::<Entry>::empty());
    }
}

} // verus!
