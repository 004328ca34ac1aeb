use songmeta::meta::coverart::{contains_coverart, get_coverart, remove_coverart, set_coverart};
use songmeta::meta::metadata::{get_meta, set_meta};
use songmeta::properties::{get_duration, get_song_properties};
use songmeta::types::{MediaError, Type};

fn metadata_block(last: bool, kind: u8, body: &[u8]) -> Vec<u8> {
    let mut b = vec![if last { 0x80 | kind } else { kind }];
    let n = body.len() as u32;
    b.extend_from_slice(&n.to_be_bytes()[1..]);
    b.extend_from_slice(body);
    b
}

fn stream_info_body(sample_rate: u32, channels: u8, bits: u8, total_samples: u64) -> Vec<u8> {
    let mut b = vec![0x10, 0x00, 0x10, 0x00, 0, 0, 0, 0, 0, 0];
    let packed: u64 = ((sample_rate as u64) << 44)
        | (((channels - 1) as u64) << 41)
        | (((bits - 1) as u64) << 36)
        | total_samples;
    b.extend_from_slice(&packed.to_be_bytes());
    b.extend_from_slice(&[0u8; 16]);
    b
}

fn comment_body(entries: &[(&str, &str)]) -> Vec<u8> {
    let vendor = b"sample encoder";
    let mut b = Vec::new();
    b.extend_from_slice(&(vendor.len() as u32).to_le_bytes());
    b.extend_from_slice(vendor);
    b.extend_from_slice(&(entries.len() as u32).to_le_bytes());
    for (k, v) in entries {
        let e = format!("{k}={v}");
        b.extend_from_slice(&(e.len() as u32).to_le_bytes());
        b.extend_from_slice(e.as_bytes());
    }
    b
}

fn picture_body(mime: &str, data: &[u8]) -> Vec<u8> {
    let mut b = Vec::new();
    b.extend_from_slice(&3u32.to_be_bytes());
    b.extend_from_slice(&(mime.len() as u32).to_be_bytes());
    b.extend_from_slice(mime.as_bytes());
    b.extend_from_slice(&0u32.to_be_bytes());
    for _ in 0..4 {
        b.extend_from_slice(&0u32.to_be_bytes());
    }
    b.extend_from_slice(&(data.len() as u32).to_be_bytes());
    b.extend_from_slice(data);
    b
}

fn png_bytes(len: usize, fill: u8) -> Vec<u8> {
    let mut b = vec![0x89, b'P', b'N', b'G', 0x0D, 0x0A, 0x1A, 0x0A];
    b.resize(len, fill);
    b
}

fn sample_tags() -> Vec<(&'static str, &'static str)> {
    vec![
        ("TITLE", "Just roll it"),
        ("ARTIST", "KD"),
        ("ALBUM", "Sample Tracks 3"),
        ("ALBUMARTIST", "KD"),
        ("GENRE", "Metal"),
        ("DATE", "2025-04-11"),
        ("TRACKNUMBER", "1"),
        ("DISCNUMBER", "1"),
        ("TRACKCOUNT", "3"),
        ("DISCCOUNT", "1"),
    ]
}

/// A container of 41 s of 24-bit stereo at 44.1 kHz, with the sample
/// tags, a front cover of `cover_len` bytes when that is not zero, and
/// `audio_len` bytes of stream after the metadata.
fn build_flac(tags: Option<&[(&str, &str)]>, cover_len: usize, audio_len: usize) -> Vec<u8> {
    let mut blocks: Vec<(u8, Vec<u8>)> = vec![(0, stream_info_body(44100, 2, 24, 41 * 44100))];
    if let Some(t) = tags {
        blocks.push((4, comment_body(t)));
    }
    if cover_len > 0 {
        blocks.push((6, picture_body("image/png", &png_bytes(cover_len, 0x11))));
    }
    let mut out = b"fLaC".to_vec();
    let n = blocks.len();
    for (i, (kind, body)) in blocks.iter().enumerate() {
        out.extend(metadata_block(i + 1 == n, *kind, body));
    }
    out.resize(out.len() + audio_len, 0);
    out
}

fn track01() -> Vec<u8> {
    build_flac(Some(&sample_tags()), 9500, 6000)
}

fn without_cover() -> Vec<u8> {
    build_flac(Some(&sample_tags()), 0, 6000)
}

#[test]
fn properties_test_get_duration() {
    let data = track01();
    match get_duration(&data) {
        Ok(duration) => {
            let song_duration: u64 = 41;
            let fetched_song_duration = duration.as_secs();
            assert_eq!(song_duration, fetched_song_duration, "Durations should match ({duration:?})");
        }
        Err(err) => {
            assert!(false, "Error: {err:?}");
        }
    }
}

#[test]
fn mod_test_get_duration() {
    let data = track01();
    match get_duration(&data) {
        Ok(duration) => {
            let song_duration: u64 = 41;
            let fetched_song_duration = duration.as_secs();
            assert_eq!(song_duration, fetched_song_duration, "Durations should match ({duration:?})");
        }
        Err(err) => {
            assert!(false, "Error: {err:?}");
        }
    }
}

#[test]
fn test_song_properties() {
    let data = track01();
    match get_song_properties(&data) {
        Ok(song_properties) => {
            assert_eq!(41, song_properties.duration.as_secs());
            assert_eq!(1, song_properties.bitrate, "Bitrates do not match {song_properties:?}");
            assert_eq!(3, song_properties.overall_bitrate, "Overall bitrates do not match {song_properties:?}");
            assert_eq!(24, song_properties.bit_depth, "Bit depth do not match {song_properties:?}");
            assert_eq!(2, song_properties.channels, "Channels do not match {song_properties:?}");
        }
        Err(err) => {
            assert!(false, "Error: {err:?}");
        }
    }
}

#[test]
fn stream_values_read_as_stored() {
    let p = get_song_properties(&track01()).unwrap();
    assert_eq!(p.duration.as_millis(), 41000);
    assert_eq!(p.sample_rate, 44100);
}

#[test]
fn properties_of_garbage_is_corrupt() {
    assert_eq!(get_song_properties(&vec![0u8; 64]).unwrap_err(), MediaError::CorruptContainer);
    assert_eq!(get_duration(&b"fLaC".to_vec()).unwrap_err(), MediaError::CorruptContainer);
}

fn expect_get(t: Type, expected: &str) {
    match get_meta(t, &track01()) {
        Ok(v) => assert!(v == expected, "Meta information was not found {:?}", v),
        Err(err) => assert!(false, "Error: {:?}", err),
    }
}

#[test]
fn test_get_title() {
    expect_get(Type::Title, "Just roll it");
}

#[test]
fn test_get_artist() {
    expect_get(Type::Artist, "KD");
}

#[test]
fn test_get_album() {
    expect_get(Type::Album, "Sample Tracks 3");
}

#[test]
fn test_get_album_artist() {
    expect_get(Type::AlbumArtist, "KD");
}

#[test]
fn test_get_genre() {
    expect_get(Type::Genre, "Metal");
}

#[test]
fn test_get_year() {
    expect_get(Type::Date, "2025-04-11");
}

#[test]
fn test_get_track() {
    expect_get(Type::Track, "1");
}

#[test]
fn test_get_disc() {
    expect_get(Type::Disc, "1");
}

#[test]
fn test_get_track_total() {
    expect_get(Type::TrackCount, "3");
}

#[test]
fn test_get_disc_total() {
    expect_get(Type::DiscCount, "1");
}

/// Reads the field from the sample container, writes `new_value` to a
/// copy, checks the value handed back, and returns the copy.
fn set_on_copy(t: Type, before: &str, new_value: &str) -> Vec<u8> {
    let pristine = track01();
    let found = get_meta(t, &pristine).unwrap();
    assert!(found == before, "Meta information was not found {:?}", found);
    let mut copy = pristine.clone();
    let value = String::from(new_value);
    match set_meta(t, &mut copy, &value) {
        Ok(m) => assert_eq!(value, m, "New value does not match {:?}", m),
        Err(err) => assert!(false, "Error: {:?}", err),
    }
    copy
}

#[test]
fn test_set_title() {
    let copy = set_on_copy(Type::Title, "Just roll it", "The wind burned her");
    assert_eq!(get_meta(Type::Title, &copy).unwrap(), "The wind burned her");
}

#[test]
fn test_set_artist() {
    let copy = set_on_copy(Type::Artist, "KD", "Pilot");
    assert_eq!(get_meta(Type::Artist, &copy).unwrap(), "Pilot");
}

#[test]
fn test_set_album() {
    let copy = set_on_copy(Type::Album, "Sample Tracks 3", "Sample Tracks 3 Remastered");
    assert_eq!(get_meta(Type::Album, &copy).unwrap(), "Sample Tracks 3 Remastered");
}

#[test]
fn test_set_album_artist() {
    let copy = set_on_copy(Type::AlbumArtist, "KD", "Bob");
    assert_eq!(get_meta(Type::AlbumArtist, &copy).unwrap(), "Bob");
}

#[test]
fn test_set_date() {
    let copy = set_on_copy(Type::Date, "2025-04-11", "2025-02-01");
    assert_eq!(get_meta(Type::Date, &copy).unwrap(), "2025-02-01");
}

#[test]
fn test_set_track() {
    let copy = set_on_copy(Type::Track, "1", "5");
    assert_eq!(get_meta(Type::Track, &copy).unwrap(), "5");
}

#[test]
fn test_set_disc() {
    let copy = set_on_copy(Type::Disc, "1", "2");
    assert_eq!(get_meta(Type::Disc, &copy).unwrap(), "2");
}

#[test]
fn test_set_track_total() {
    set_on_copy(Type::TrackCount, "3", "5");
}

#[test]
fn test_set_disc_total() {
    set_on_copy(Type::DiscCount, "1", "2");
}

#[test]
fn test_set_genre() {
    let copy = set_on_copy(Type::Genre, "Metal", "Blues");
    assert_eq!(get_meta(Type::Genre, &copy).unwrap(), "Blues");
}

#[test]
fn numeric_write_stores_the_decimal_text() {
    let mut copy = track01();
    assert_eq!(set_meta(Type::Track, &mut copy, &String::from("+07")).unwrap(), "+07");
    assert_eq!(get_meta(Type::Track, &copy).unwrap(), "7");
}

#[test]
fn track_total_is_written_under_its_own_key() {
    let mut copy = track01();
    set_meta(Type::TrackCount, &mut copy, &String::from("5")).unwrap();
    assert_eq!(get_meta(Type::TrackCount, &copy).unwrap(), "3");
}

#[test]
fn non_numeric_value_is_refused_and_nothing_changes() {
    for t in [Type::Track, Type::Disc, Type::TrackCount, Type::DiscCount] {
        let pristine = track01();
        let mut copy = pristine.clone();
        let before = get_meta(t, &copy).unwrap();
        assert_eq!(set_meta(t, &mut copy, &String::from("five")), Err(MediaError::InvalidNumericValue));
        assert_eq!(copy, pristine);
        assert_eq!(get_meta(t, &copy).unwrap(), before);
    }
    let mut copy = track01();
    assert_eq!(set_meta(Type::Track, &mut copy, &String::from("")), Err(MediaError::InvalidNumericValue));
    assert_eq!(set_meta(Type::Disc, &mut copy, &String::from("-1")), Err(MediaError::InvalidNumericValue));
    assert_eq!(set_meta(Type::Disc, &mut copy, &String::from("4294967296")), Err(MediaError::InvalidNumericValue));
    assert!(set_meta(Type::Disc, &mut copy, &String::from("4294967295")).is_ok());
    assert_eq!(get_meta(Type::Disc, &copy).unwrap(), "4294967295");
}

#[test]
fn every_text_field_reads_back_what_was_written() {
    for t in [Type::Title, Type::Artist, Type::Album, Type::AlbumArtist, Type::Genre, Type::Date] {
        let mut copy = track01();
        let value = String::from("  Exactly this, untrimmed  ");
        set_meta(t, &mut copy, &value).unwrap();
        assert_eq!(get_meta(t, &copy).unwrap(), value);
    }
}

#[test]
fn raw_key_replaces_entries_in_any_case() {
    let tags = [("albumartist", "Old"), ("TITLE", "x")];
    let mut data = build_flac(Some(&tags), 0, 100);
    assert_eq!(get_meta(Type::AlbumArtist, &data).unwrap(), "Old");
    set_meta(Type::AlbumArtist, &mut data, &String::from("New")).unwrap();
    assert_eq!(get_meta(Type::AlbumArtist, &data).unwrap(), "New");
}

#[test]
fn first_duplicate_wins_on_read() {
    let tags = [("DATE", "first"), ("date", "second")];
    let data = build_flac(Some(&tags), 0, 100);
    assert_eq!(get_meta(Type::Date, &data).unwrap(), "first");
}

#[test]
fn missing_field_and_missing_block() {
    let tags = [("TITLE", "only")];
    let data = build_flac(Some(&tags), 0, 100);
    assert_eq!(get_meta(Type::Genre, &data), Err(MediaError::FieldNotFound));
    let bare = build_flac(None, 0, 100);
    assert_eq!(get_meta(Type::Title, &bare), Err(MediaError::NoTagBlock));
    let mut copy = bare.clone();
    assert_eq!(set_meta(Type::Title, &mut copy, &String::from("t")), Err(MediaError::NoTagBlock));
    assert_eq!(copy, bare);
}

#[test]
fn corrupt_container_is_reported() {
    let junk = vec![7u8; 100];
    assert_eq!(get_meta(Type::Title, &junk), Err(MediaError::CorruptContainer));
    let mut copy = junk.clone();
    assert_eq!(set_meta(Type::Title, &mut copy, &String::from("t")), Err(MediaError::CorruptContainer));
    assert_eq!(copy, junk);
    assert_eq!(contains_coverart(&junk), Err(MediaError::CorruptContainer));
    assert_eq!(get_coverart(&junk), Err(MediaError::CorruptContainer));
}

#[test]
fn test_get_picture() {
    match get_coverart(&track01()) {
        Ok(coverart) => {
            assert_eq!(coverart.is_empty(), false, "Should not be empty");
            assert_eq!(coverart, png_bytes(9500, 0x11));
        }
        Err(err) => assert!(false, "Error: {:?}", err),
    }
}

#[test]
fn test_set_picture() {
    let mut song = track01();
    let other = png_bytes(300, 0x22);
    match set_coverart(&mut song, &other) {
        Ok(bytes) => {
            assert_eq!(false, bytes.is_empty(), "This should not be empty");
            assert_eq!(bytes, other);
        }
        Err(err) => assert!(false, "Error: {:?}", err),
    }
    assert_eq!(get_coverart(&song).unwrap(), other);
    assert_eq!(contains_coverart(&song).unwrap(), (true, 1));
}

#[test]
fn test_picture_exists() {
    match contains_coverart(&track01()) {
        Ok((exists, pictures)) => {
            assert!(exists, "File should have a cover art");
            assert!(pictures > 0, "No cover art was found in the file");
        }
        Err(err) => assert!(false, "Error: {:?}", err),
    }
}

#[test]
fn test_remove_picture() {
    let mut copy = track01();
    match remove_coverart(&mut copy) {
        Ok(bytes) => {
            assert_eq!(false, bytes.is_empty(), "This should not be empty");
            assert_eq!(bytes, png_bytes(9500, 0x11));
        }
        Err(err) => assert!(false, "Error: {:?}", err),
    }
    assert_eq!(contains_coverart(&copy).unwrap(), (false, 0));
}

#[test]
fn picture_life_cycle() {
    let mut song = without_cover();
    assert_eq!(contains_coverart(&song).unwrap(), (false, 0));
    assert_eq!(get_coverart(&song).unwrap(), Vec::<u8>::new());
    let before = song.clone();
    assert_eq!(remove_coverart(&mut song), Err(MediaError::NoPictureFound));
    assert_eq!(song, before);

    let png = png_bytes(64, 0x33);
    assert_eq!(set_coverart(&mut song, &png).unwrap(), png);
    let (present, count) = contains_coverart(&song).unwrap();
    assert!(present && count >= 1);
    assert_eq!(get_coverart(&song).unwrap(), png);

    assert_eq!(remove_coverart(&mut song).unwrap(), png);
    assert_eq!(contains_coverart(&song).unwrap(), (false, 0));
    assert_eq!(get_meta(Type::Title, &song).unwrap(), "Just roll it");
}

#[test]
fn jpeg_cover_replaces_the_first_picture() {
    let mut song = track01();
    let mut jpeg = vec![0xFF, 0xD8, 0xFF, 0xE0];
    jpeg.resize(40, 0x44);
    assert_eq!(set_coverart(&mut song, &jpeg).unwrap(), jpeg);
    assert_eq!(get_coverart(&song).unwrap(), jpeg);
    assert_eq!(contains_coverart(&song).unwrap(), (true, 1));
}

#[test]
fn unsupported_cover_is_refused() {
    let mut song = track01();
    let before = song.clone();
    let gif = b"GIF89a\x01\x00\x01\x00\x00\x00".to_vec();
    assert_eq!(set_coverart(&mut song, &gif), Err(MediaError::UnsupportedImageFormat));
    assert_eq!(set_coverart(&mut song, &vec![0u8; 32]), Err(MediaError::UnsupportedImageFormat));
    assert_eq!(set_coverart(&mut song, &vec![0xFF, 0xD8, 0xFF]), Err(MediaError::UnsupportedImageFormat));
    assert_eq!(song, before);
}

#[test]
fn sample_file_end_to_end() {
    let data = track01();
    assert_eq!(get_meta(Type::Title, &data).unwrap(), "Just roll it");
    assert_eq!(get_meta(Type::Track, &data).unwrap(), "1");
    assert_eq!(get_song_properties(&data).unwrap().duration.as_secs(), 41);
}

#[test]
fn jpeg_with_unwalkable_header_is_still_embedded() {
    let mut song = track01();
    let jpeg = vec![0xFF, 0xD8, 0xFF, 0xE0, 0x00, 0x02, 0xFF, 0xE1, 0x00, 0x00];
    assert_eq!(set_coverart(&mut song, &jpeg).unwrap(), jpeg);
    assert_eq!(get_coverart(&song).unwrap(), jpeg);
}

#[test]
fn jpeg_frame_header_is_read() {
    let mut song = without_cover();
    let mut jpeg = vec![0xFF, 0xD8, 0xFF, 0xE0, 0x00, 0x04, 0, 0];
    jpeg.extend_from_slice(&[0xFF, 0xC0, 0x00, 0x11, 8, 0, 16, 0, 32, 3]);
    jpeg.resize(64, 0);
    assert_eq!(set_coverart(&mut song, &jpeg).unwrap(), jpeg);
    assert_eq!(contains_coverart(&song).unwrap(), (true, 1));
}

#[test]
fn legacy_cover_comment_is_not_read() {
    let tags = [("TITLE", "x"), ("coverart", "AAAA")];
    let data = build_flac(Some(&tags), 0, 100);
    assert_eq!(get_meta(Type::Title, &data), Err(MediaError::CorruptContainer));
    assert_eq!(get_song_properties(&data).unwrap_err(), MediaError::CorruptContainer);
    let mut copy = data.clone();
    assert_eq!(set_meta(Type::Title, &mut copy, &String::from("y")), Err(MediaError::CorruptContainer));
    assert_eq!(copy, data);
}

#[test]
fn legacy_cover_comment_with_full_value_is_read() {
    let tags = [("TITLE", "x"), ("COVERART", "iVBORw0KGgoAAAAA")];
    let data = build_flac(Some(&tags), 0, 100);
    assert_eq!(get_meta(Type::Title, &data).unwrap(), "x");
    assert_eq!(get_song_properties(&data).unwrap().duration.as_secs(), 41);
}

#[test]
fn cover_marker_in_audio_data_is_no_obstacle() {
    let mut data = track01();
    data.extend_from_slice(b"..COVERART=AAAA");
    assert_eq!(get_meta(Type::Title, &data).unwrap(), "Just roll it");
    data.extend_from_slice(&[0x30, 0, 0, 0]);
    data.extend_from_slice(b"coverart=");
    assert_eq!(contains_coverart(&data).unwrap(), (true, 1));
}

#[test]
fn removing_the_only_picture_of_an_untagged_container() {
    let mut song = build_flac(None, 500, 100);
    assert_eq!(contains_coverart(&song).unwrap(), (true, 1));
    assert_eq!(remove_coverart(&mut song).unwrap(), png_bytes(500, 0x11));
    assert_eq!(contains_coverart(&song).unwrap(), (false, 0));
    assert_eq!(get_meta(Type::Title, &song), Err(MediaError::NoTagBlock));
}
