//! The semantic tag fields, their values, the errors of the library, and the
//! one table that maps each field to its comment key and its storage.
use vstd::prelude::*;
use vstd::string::*;

verus! {

/// A semantic metadata field.
#[derive(Debug, Clone, Copy, PartialEq, Eq, Structural)]
pub enum Type {
    Title,
    Artist,
    Album,
    AlbumArtist,
    Genre,
    Date,
    Track,
    Disc,
    TrackCount,
    DiscCount,
}

/// A metadata value: text, or an integer.
#[derive(Debug)]
pub enum MetadataType {
    String(String),
    Int(i32),
}

/// The failures of the library.
#[derive(Debug, Clone, Copy, PartialEq, Eq, Structural)]
pub enum MediaError {
    /// Writing the container failed.
    IoError,
    /// The container could not be parsed.
    CorruptContainer,
    /// The container holds no comment block.
    NoTagBlock,
    /// The comment block holds no entry for the field.
    FieldNotFound,
    /// A numeric field was given text that is not an unsigned integer.
    InvalidNumericValue,
    /// The bytes are not of a supported kind.
    UnsupportedFormat,
    /// The image to embed is neither PNG nor JPEG.
    UnsupportedImageFormat,
    /// The container holds no picture.
    NoPictureFound,
}

/// How a field's value is stored in the comment block.
#[derive(Debug, Clone, Copy, PartialEq, Eq, Structural)]
pub enum Storage {
    /// Through the tag's own accessor for the field.
    Structured,
    /// As a raw key/value pair.
    RawKeyValue,
}

impl MetadataType {
    pub fn from_std_str(s: &str) -> (r: Self)
        ensures
            r matches MetadataType::String(t) && t@ == s@,
    {
        MetadataType::String(s.to_owned())
    }

    pub fn from_string(s: String) -> (r: Self)
        ensures
            r matches MetadataType::String(t) && t@ == s@,
    {
        MetadataType::String(s)
    }

    pub fn from_int(i: i32) -> (r: Self)
        ensures
            r matches MetadataType::Int(j) && j == i,
    {
        MetadataType::Int(i)
    }
}

/// The comment key of each field.
pub open spec fn key_of(t: Type) -> Seq<char> {
    match t {
        Type::Title => seq!['T', 'I', 'T', 'L', 'E'],
        Type::Artist => seq!['A', 'R', 'T', 'I', 'S', 'T'],
        Type::Album => seq!['A', 'L', 'B', 'U', 'M'],
        Type::AlbumArtist => seq!['A', 'L', 'B', 'U', 'M', 'A', 'R', 'T', 'I', 'S', 'T'],
        Type::Genre => seq!['G', 'E', 'N', 'R', 'E'],
        Type::Date => seq!['D', 'A', 'T', 'E'],
        Type::Track => seq!['T', 'R', 'A', 'C', 'K', 'N', 'U', 'M', 'B', 'E', 'R'],
        Type::Disc => seq!['D', 'I', 'S', 'C', 'N', 'U', 'M', 'B', 'E', 'R'],
        Type::TrackCount => seq!['T', 'R', 'A', 'C', 'K', 'C', 'O', 'U', 'N', 'T'],
        Type::DiscCount => seq!['D', 'I', 'S', 'C', 'C', 'O', 'U', 'N', 'T'],
    }
}

/// Whether a field takes an unsigned integer on write.
pub open spec fn is_numeric(t: Type) -> bool {
    t == Type::Track || t == Type::Disc || t == Type::TrackCount || t == Type::DiscCount
}

/// Where a field's value goes on write.
pub open spec fn storage_of(t: Type) -> Storage {
    if t == Type::AlbumArtist || t == Type::Date {
        Storage::RawKeyValue
    } else {
        Storage::Structured
    }
}

/// The comment key of a field.
pub fn get_type(t: Type) -> (r: Result<String, MediaError>)
    ensures
        r matches Ok(k) && k@ == key_of(t),
{
    let k = match t {
        Type::Title => String::from_str("TITLE"),
        Type::Artist => String::from_str("ARTIST"),
        Type::Album => String::from_str("ALBUM"),
        Type::AlbumArtist => String::from_str("ALBUMARTIST"),
        Type::Genre => String::from_str("GENRE"),
        Type::Date => String::from_str("DATE"),
        Type::Track => String::from_str("TRACKNUMBER"),
        Type::Disc => String::from_str("DISCNUMBER"),
        Type::TrackCount => String::from_str("TRACKCOUNT"),
        Type::DiscCount => String::from_str("DISCCOUNT"),
    };
    proof {
        reveal_strlit("TITLE");
        reveal_strlit("ARTIST");
        reveal_strlit("ALBUM");
        reveal_strlit("ALBUMARTIST");
        reveal_strlit("GENRE");
        reveal_strlit("DATE");
        reveal_strlit("TRACKNUMBER");
        reveal_strlit("DISCNUMBER");
        reveal_strlit("TRACKCOUNT");
        reveal_strlit("DISCCOUNT");
    }
    assert(k@ =~= key_of(t));
    Ok(k)
}

/// Whether a field takes an unsigned integer on write.
pub fn is_numeric_field(t: Type) -> (r: bool)
    ensures
        r == is_numeric(t),
{
    match t {
        Type::Track | Type::Disc | Type::TrackCount | Type::DiscCount => true,
        _ => false,
    }
}

/// Where a field's value goes on write.
pub fn storage(t: Type) -> (r: Storage)
    ensures
        r == storage_of(t),
{
    match t {
        Type::AlbumArtist | Type::Date => Storage::RawKeyValue,
        _ => Storage::Structured,
    }
}

/// The field-to-key mapping is injective: no two fields share a comment key.
pub proof fn lemma_key_injective(a: Type, b: Type)
    requires
        key_of(a) == key_of(b),
    ensures
        a == b,
{
    let (ka, kb) = (key_of(a), key_of(b));
    assert(ka.len() == kb.len());
    assert(forall|i: int| 0 <= i < ka.len() ==> ka[i] == kb[i]);
}

} // verus!
