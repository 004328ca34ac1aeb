//! Screening of container bytes before they are parsed. The reader decodes
//! the value of a legacy `COVERART` comment as padded base64 and slices the
//! first eight decoded bytes without a length check. A value decodes to
//! fewer than eight bytes only if it has at most twelve characters, that is
//! where the comment, `COVERART=` and its value, is at most 21 bytes long.
//! Bytes that could hold such a comment are not handed to the reader.
use vstd::prelude::*;

verus! {

/// A byte with ASCII lower case folded to upper case.
pub open spec fn upper(c: u8) -> u8 {
    if 0x61 <= c <= 0x7A {
        (c - 32) as u8
    } else {
        c
    }
}

/// `COVERART=`, the start of a legacy cover-art comment.
pub open spec fn coverart_prefix() -> Seq<u8> {
    seq![0x43u8, 0x4Fu8, 0x56u8, 0x45u8, 0x52u8, 0x41u8, 0x52u8, 0x54u8, 0x3Du8]
}

/// The bytes at `i` read `COVERART=` up to ASCII case, preceded by the
/// little-endian 32-bit length of a comment of 9 to 21 bytes.
pub open spec fn coverart_at(b: Seq<u8>, i: int) -> bool {
    &&& 4 <= i && i + 9 <= b.len()
    &&& 9 <= b[i - 4] <= 21 && b[i - 3] == 0u8 && b[i - 2] == 0u8 && b[i - 1] == 0u8
    &&& forall|k: int| 0 <= k < 9 ==> #[trigger] upper(b[i + k]) == coverart_prefix()[k]
}

/// Some bytes could hold a `COVERART` comment whose value decodes to fewer
/// than eight bytes.
pub open spec fn holds_short_coverart(b: Seq<u8>) -> bool {
    exists|i: int| coverart_at(b, i)
}

fn upper_byte(c: u8) -> (r: u8)
    ensures
        r == upper(c),
{
    if 0x61 <= c && c <= 0x7A {
        c - 32
    } else {
        c
    }
}

fn coverart_at_index(b: &Vec<u8>, i: usize) -> (r: bool)
    requires
        i + 9 <= b@.len(),
    ensures
        r == coverart_at(b@, i as int),
{
    let prefix: [u8; 9] = [0x43, 0x4F, 0x56, 0x45, 0x52, 0x41, 0x52, 0x54, 0x3D];
    assert(prefix@ =~= coverart_prefix());
    let n = b.len();
    if i < 4 || b[i - 4] < 9 || b[i - 4] > 21 || b[i - 3] != 0 || b[i - 2] != 0 || b[i - 1] != 0 {
        return false;
    }
    let mut k: usize = 0;
    while k < 9
        invariant
            k <= 9,
            i + 9 <= n,
            n == b@.len(),
            prefix@ == coverart_prefix(),
            forall|m: int| 0 <= m < k ==> #[trigger] upper(b@[i + m]) == coverart_prefix()[m],
        decreases 9 - k,
    {
        if upper_byte(b[i + k]) != prefix[k] {
            assert(upper(b@[i + k as int]) != coverart_prefix()[k as int]);
            return false;
        }
        k = k + 1;
    }
    true
}

/// Whether `b` could hold a `COVERART` comment whose value decodes to fewer
/// than eight bytes.
pub fn holds_short_coverart_comment(b: &Vec<u8>) -> (r: bool)
    ensures
        r == holds_short_coverart(b@),
{
    if b.len() < 9 {
        return false;
    }
    let mut i: usize = 0;
    while i <= b.len() - 9
        invariant
            b@.len() >= 9,
            i <= b@.len() - 8,
            forall|j: int| 0 <= j < i ==> !coverart_at(b@, j),
        decreases b@.len() - i,
    {
        if coverart_at_index(b, i) {
            return true;
        }
        i = i + 1;
    }
    assert forall|j: int| !coverart_at(b@, j) by {
        if 0 <= j < i {
        }
    }
    false
}

} // verus!
