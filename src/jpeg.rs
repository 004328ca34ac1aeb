//! Whether the segment walk that reads a JPEG's frame header stays within
//! the arithmetic that the reader does on the segment fields.
use vstd::prelude::*;

verus! {

/// The big-endian 16-bit value at `i`.
pub open spec fn be16(b: Seq<u8>, i: int) -> int {
    b[i] as int * 256 + b[i + 1] as int
}

/// The walk over the segments from `pos` meets no segment length below two
/// and no frame header whose precision times component count exceeds a byte.
/// The walk ends at a byte other than `0xFF`, at the start of scan, at the
/// first frame header, or where the bytes run out.
pub open spec fn jpeg_segments_readable(b: Seq<u8>, pos: int) -> bool
    decreases b.len() - pos,
{
    if pos < 0 || pos + 4 > b.len() || b[pos] != 0xFFu8 {
        true
    } else if b[pos + 1] == 0xDAu8 {
        true
    } else if b[pos + 1] == 0xC0u8 || b[pos + 1] == 0xC2u8 {
        pos + 10 > b.len() || b[pos + 4] as int * b[pos + 9] as int <= 255
    } else if be16(b, pos + 2) < 2 {
        false
    } else if pos + 2 + be16(b, pos + 2) > b.len() {
        true
    } else {
        jpeg_segments_readable(b, pos + 2 + be16(b, pos + 2))
    }
}

/// Bytes whose JPEG header, if they open as one (at least eight bytes,
/// `FF D8 FF`), can be walked: the first segment is skipped by its length,
/// then the walk above runs.
pub open spec fn jpeg_header_readable(b: Seq<u8>) -> bool {
    if b.len() >= 8 && b[0] == 0xFFu8 && b[1] == 0xD8u8 && b[2] == 0xFFu8 {
        be16(b, 4) < 2 || jpeg_segments_readable(b, 4 + be16(b, 4))
    } else {
        true
    }
}

/// Whether the JPEG header of `b` can be walked.
pub fn jpeg_header_is_readable(b: &Vec<u8>) -> (r: bool)
    ensures
        r == jpeg_header_readable(b@),
{
    if !(b.len() >= 8 && b[0] == 0xFF && b[1] == 0xD8 && b[2] == 0xFF) {
        return true;
    }
    let first: usize = b[4] as usize * 256 + b[5] as usize;
    if first < 2 {
        return true;
    }
    let mut pos: usize = 4 + first;
    loop
        invariant
            b@.len() >= 8,
            jpeg_header_readable(b@) == jpeg_segments_readable(b@, pos as int),
        decreases b@.len() - pos,
    {
        if pos > b.len() - 4 || b[pos] != 0xFF {
            return true;
        }
        let marker = b[pos + 1];
        if marker == 0xDA {
            return true;
        }
        if marker == 0xC0 || marker == 0xC2 {
            if b.len() - pos < 10 {
                return true;
            }
            let precision = b[pos + 4] as u32;
            let components = b[pos + 9] as u32;
            assert(precision * components <= 255 * 255) by (nonlinear_arith)
                requires
                    precision <= 255,
                    components <= 255,
            ;
            return precision * components <= 255;
        }
        let seg: usize = b[pos + 2] as usize * 256 + b[pos + 3] as usize;
        assert(seg as int == be16(b@, pos + 2));
        if seg < 2 {
            return false;
        }
        if seg > b.len() - pos - 2 {
            return true;
        }
        pos = pos + 2 + seg;
    }
}

} // verus!
