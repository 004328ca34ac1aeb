use songmeta::decimal::{parse_u32_text, u32_to_text};
use songmeta::types::{get_type, is_numeric_field, storage, MetadataType, Storage, Type};
use songmeta::util::{generate_filename, get_filename, i32_to_text};

const ALL: [Type; 10] = [
    Type::Title,
    Type::Artist,
    Type::Album,
    Type::AlbumArtist,
    Type::Genre,
    Type::Date,
    Type::Track,
    Type::Disc,
    Type::TrackCount,
    Type::DiscCount,
];

#[test]
fn every_field_has_its_key() {
    let keys: Vec<String> = ALL.iter().map(|t| get_type(*t).unwrap()).collect();
    assert_eq!(
        keys,
        vec![
            "TITLE", "ARTIST", "ALBUM", "ALBUMARTIST", "GENRE", "DATE", "TRACKNUMBER", "DISCNUMBER",
            "TRACKCOUNT", "DISCCOUNT"
        ]
    );
    for i in 0..keys.len() {
        for j in 0..keys.len() {
            assert_eq!(i == j, keys[i] == keys[j]);
        }
    }
}

#[test]
fn dispatch_table() {
    let numeric: Vec<bool> = ALL.iter().map(|t| is_numeric_field(*t)).collect();
    assert_eq!(numeric, vec![false, false, false, false, false, false, true, true, true, true]);
    assert_eq!(storage(Type::AlbumArtist), Storage::RawKeyValue);
    assert_eq!(storage(Type::Date), Storage::RawKeyValue);
    assert_eq!(storage(Type::Title), Storage::Structured);
    assert_eq!(storage(Type::DiscCount), Storage::Structured);
}

#[test]
fn metadata_values() {
    assert!(matches!(MetadataType::from_std_str("abc"), MetadataType::String(s) if s == "abc"));
    assert!(matches!(MetadataType::from_string(String::from("x y")), MetadataType::String(s) if s == "x y"));
    assert!(matches!(MetadataType::from_int(-4), MetadataType::Int(-4)));
}

#[test]
fn decimal_text() {
    assert_eq!(u32_to_text(0), "0");
    assert_eq!(u32_to_text(7), "7");
    assert_eq!(u32_to_text(1024), "1024");
    assert_eq!(u32_to_text(u32::MAX), "4294967295");
    assert_eq!(i32_to_text(-12), "-12");
    assert_eq!(i32_to_text(i32::MIN), "-2147483648");
}

#[test]
fn decimal_parse() {
    assert_eq!(parse_u32_text("0"), Some(0));
    assert_eq!(parse_u32_text("+15"), Some(15));
    assert_eq!(parse_u32_text("007"), Some(7));
    assert_eq!(parse_u32_text("4294967295"), Some(u32::MAX));
    assert_eq!(parse_u32_text("4294967296"), None);
    assert_eq!(parse_u32_text("99999999999999999999"), None);
    assert_eq!(parse_u32_text(""), None);
    assert_eq!(parse_u32_text("+"), None);
    assert_eq!(parse_u32_text("-1"), None);
    assert_eq!(parse_u32_text(" 1"), None);
    assert_eq!(parse_u32_text("1a"), None);
    for s in ["0", "+15", "007", "4294967295", "4294967296", "", "+", "-1", "x", "１"] {
        assert_eq!(parse_u32_text(s), s.parse::<u32>().ok(), "{s}");
    }
}

#[test]
fn track_file_names() {
    assert_eq!(get_filename(1), "track01.flac");
    assert_eq!(get_filename(9), "track09.flac");
    assert_eq!(get_filename(10), "track10.flac");
    assert_eq!(get_filename(123), "track123.flac");
    assert_eq!(get_filename(-3), "track0-3.flac");
}

#[test]
fn random_track_names() {
    let a = generate_filename().unwrap();
    assert_eq!(a.len(), 31);
    assert!(a.starts_with("track-"));
    assert!(a.ends_with(".flac"));
    assert!(a[6..26].chars().all(|c| matches!(c, 'a'..='f' | '0'..='9')));
    let first = a.as_bytes()[6];
    assert!(a.as_bytes()[6..26].iter().any(|c| *c != first));
}
