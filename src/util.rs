//! Names for sample tracks: the name of a numbered track, and a fresh random
//! name.
use vstd::prelude::*;
use vstd::string::*;

use crate::decimal::{dec_text, u32_to_text};
use crate::types::MediaError;

verus! {

/// The decimal text of a signed integer.
pub open spec fn int_text(n: int) -> Seq<char> {
    if n < 0 {
        seq!['-'] + dec_text((-n) as nat)
    } else {
        dec_text(n as nat)
    }
}

/// The file name of sample track `track`: `track`, a `0` before numbers
/// under ten, the number, `.flac`.
pub open spec fn track_filename(track: int) -> Seq<char> {
    let prefix = if track < 10 {
        seq!['t', 'r', 'a', 'c', 'k', '0']
    } else {
        seq!['t', 'r', 'a', 'c', 'k']
    };
    prefix + int_text(track) + seq!['.', 'f', 'l', 'a', 'c']
}

/// The characters of a random name.
pub open spec fn is_name_char(c: char) -> bool {
    ('a' <= c <= 'f') || ('0' <= c <= '9')
}

/// The decimal text of `n`.
pub fn i32_to_text(n: i32) -> (r: String)
    ensures
        r@ == int_text(n as int),
{
    if n < 0 {
        let magnitude: u32 = if n == i32::MIN {
            2147483648u32
        } else {
            (-n) as u32
        };
        let digits = u32_to_text(magnitude);
        let mut r = String::from_str("-");
        r.append(digits.as_str());
        proof {
            reveal_strlit("-");
        }
        assert(r@ =~= int_text(n as int));
        r
    } else {
        u32_to_text(n as u32)
    }
}

/// The file name of sample track `track`.
pub fn get_filename(track: i32) -> (r: String)
    ensures
        r@ == track_filename(track as int),
{
    let mut r = if track < 10 {
        String::from_str("track0")
    } else {
        String::from_str("track")
    };
    let number = i32_to_text(track);
    r.append(number.as_str());
    r.append(".flac");
    proof {
        reveal_strlit("track0");
        reveal_strlit("track");
        reveal_strlit(".flac");
    }
    assert(r@ =~= track_filename(track as int));
    r
}

/// Relies on `rand::random_range`: a value drawn from `0..=max`, a range that
/// is never empty.
#[verifier::external_body]
fn random_index(max: usize) -> (r: usize)
    ensures
        r <= max,
{
    rand::random_range(0..=max)
}

/// A fresh track name: `track-`, twenty random characters from `a`-`f` and
/// `0`-`9`, `.flac`.
pub fn generate_filename() -> (r: Result<String, MediaError>)
    ensures
        r matches Ok(s) && s@.len() == 31 && s@.subrange(0, 6) == seq!['t', 'r', 'a', 'c', 'k', '-']
            && s@.subrange(26, 31) == seq!['.', 'f', 'l', 'a', 'c']
            && forall|i: int| 6 <= i < 26 ==> is_name_char(#[trigger] s@[i]),
{
    let characters = "abcdef0123456789";
    proof {
        reveal_strlit("abcdef0123456789");
        reveal_strlit("track-");
        reveal_strlit(".flac");
    }
    assert(characters@ =~= seq!['a', 'b', 'c', 'd', 'e', 'f', '0', '1', '2', '3', '4', '5', '6', '7', '8', '9']);
    assert(forall|i: int| 0 <= i < 16 ==> is_name_char(#[trigger] characters@[i]));
    let mut name = String::from_str("track-");
    let mut k: usize = 0;
    while k < 20
        invariant
            k <= 20,
            characters@.len() == 16,
            forall|i: int| 0 <= i < 16 ==> is_name_char(#[trigger] characters@[i]),
            name@.len() == 6 + k,
            name@.subrange(0, 6) == seq!['t', 'r', 'a', 'c', 'k', '-'],
            forall|i: int| 6 <= i < 6 + k ==> is_name_char(#[trigger] name@[i]),
        decreases 20 - k,
    {
        let index = random_index(15);
        let c = characters.substring_char(index, index + 1);
        let ghost before = name@;
        name.append(c);
        assert(name@.subrange(0, 6) =~= before.subrange(0, 6));
        assert(name@[6 + k as int] == characters@[index as int]);
        k = k + 1;
    }
    let ghost before = name@;
    name.append(".flac");
    assert(name@.subrange(0, 6) =~= before.subrange(0, 6));
    assert(name@.subrange(26, 31) =~= seq!['.', 'f', 'l', 'a', 'c']);
    Ok(name)
}

} // verus!
