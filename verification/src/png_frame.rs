//! The framing of a PNG file.
//!
//! A PNG file is a signature of eight bytes and a row of chunks after it. Each
//! chunk has a length of four bytes, a type of four bytes, that many bytes of
//! data and a checksum of four bytes. [`well_framed`] holds of the files whose
//! chunks are laid out as the format asks, as far as a decoder has to rely on
//! it before it looks at the picture: what the chunks hold, and whether their
//! checksums are right, is for the decoder to judge.

use vstd::prelude::*;

verus! {

/// The longest side of a picture that is taken. With four bytes for a pixel
/// at most, the position of every bit of such a picture is below two to the
/// power of 32, and its pixels take no more than 256 MiB.
pub const MAX_SIDE: u32 = 8192;

/// The number that four bytes hold, the first of them counting most.
pub open spec fn be32(bytes: Seq<u8>, at: int) -> int {
    bytes[at] * 16777216 + bytes[at + 1] * 65536 + bytes[at + 2] * 256 + bytes[at + 3]
}

/// The four bytes from `at` on are the given ones.
pub open spec fn tagged(bytes: Seq<u8>, at: int, a: u8, b: u8, c: u8, d: u8) -> bool {
    bytes[at] == a && bytes[at + 1] == b && bytes[at + 2] == c && bytes[at + 3] == d
}

/// The eight bytes that every PNG file begins with.
pub open spec fn signed(bytes: Seq<u8>) -> bool {
    &&& bytes.len() >= 8
    &&& tagged(bytes, 0, 137, 80, 78, 71)
    &&& tagged(bytes, 4, 13, 10, 26, 10)
}

/// A bit depth that the format allows for a colour type: 1, 2, 4, 8 or 16 for
/// greyscale, 1, 2, 4 or 8 for a palette, and 8 or 16 for the colour types
/// that have more than one sample for a pixel.
pub open spec fn legal_depth(colour: u8, depth: u8) -> bool {
    if colour == 0 {
        depth == 1 || depth == 2 || depth == 4 || depth == 8 || depth == 16
    } else if colour == 3 {
        depth == 1 || depth == 2 || depth == 4 || depth == 8
    } else if colour == 2 || colour == 4 || colour == 6 {
        depth == 8 || depth == 16
    } else {
        false
    }
}

/// The first chunk is a header of thirteen bytes. It gives a width and a
/// height between 1 and [`MAX_SIDE`], a colour type with a bit depth that is
/// legal for it, the one compression method and the one filter method that
/// the format knows, and one of its two interlace methods.
pub open spec fn header_framed(bytes: Seq<u8>) -> bool {
    &&& bytes.len() >= 33
    &&& be32(bytes, 8) == 13
    &&& tagged(bytes, 12, 73, 72, 68, 82)
    &&& 1 <= be32(bytes, 16) <= MAX_SIDE
    &&& 1 <= be32(bytes, 20) <= MAX_SIDE
    &&& legal_depth(bytes[25], bytes[24])
    &&& bytes[26] == 0
    &&& bytes[27] == 0
    &&& bytes[28] <= 1
}

/// The chunks from `at` on are laid out as the format asks. `seen_data` says
/// whether a chunk of picture data came before them.
///
/// Every chunk lies within the file. There is picture data, and the row ends
/// with the end chunk. After the first chunk no second header follows. A
/// palette and a transparency chunk come before the picture data, with no
/// more than 256 entries. The chunks of an animation do not occur.
pub open spec fn chunks_framed(bytes: Seq<u8>, at: int, seen_data: bool) -> bool
    decreases bytes.len() - at,
{
    if at < 0 || at + 12 > bytes.len() {
        false
    } else {
        let next = at + 12 + be32(bytes, at);
        let kind = at + 4;
        if next > bytes.len() {
            false
        } else if tagged(bytes, kind, 73, 69, 78, 68) {
            // IEND
            seen_data
        } else if tagged(bytes, kind, 73, 72, 68, 82) {
            // IHDR
            false
        } else if tagged(bytes, kind, 97, 99, 84, 76) || tagged(bytes, kind, 102, 99, 84, 76)
            || tagged(bytes, kind, 102, 100, 65, 84) {
            // acTL, fcTL, fdAT
            false
        } else if tagged(bytes, kind, 73, 68, 65, 84) {
            // IDAT
            chunks_framed(bytes, next, true)
        } else if tagged(bytes, kind, 80, 76, 84, 69) {
            // PLTE
            !seen_data && be32(bytes, at) <= 768 && chunks_framed(bytes, next, seen_data)
        } else if tagged(bytes, kind, 116, 82, 78, 83) {
            // tRNS
            !seen_data && be32(bytes, at) <= 256 && chunks_framed(bytes, next, seen_data)
        } else {
            chunks_framed(bytes, next, seen_data)
        }
    }
}

/// The file begins with the signature and the header, and the chunks after
/// the header are laid out as the format asks.
pub open spec fn well_framed(bytes: Seq<u8>) -> bool {
    signed(bytes) && header_framed(bytes) && chunks_framed(bytes, 33, false)
}

/// Reads the number that the four bytes from `at` on hold.
fn read_be32(bytes: &Vec<u8>, at: usize) -> (number: u32)
    requires
        at + 4 <= bytes.len(),
    ensures
        number == be32(bytes@, at as int),
{
    let a: u32 = bytes[at] as u32;
    let b: u32 = bytes[at + 1] as u32;
    let c: u32 = bytes[at + 2] as u32;
    let d: u32 = bytes[at + 3] as u32;
    a * 16777216 + b * 65536 + c * 256 + d
}

/// Tells whether the four bytes from `at` on are the given ones.
fn has_tag(bytes: &Vec<u8>, at: usize, a: u8, b: u8, c: u8, d: u8) -> (same: bool)
    requires
        at + 4 <= bytes.len(),
    ensures
        same == tagged(bytes@, at as int, a, b, c, d),
{
    bytes[at] == a && bytes[at + 1] == b && bytes[at + 2] == c && bytes[at + 3] == d
}

/// Tells whether a bit depth is legal for a colour type.
fn is_legal_depth(colour: u8, depth: u8) -> (legal: bool)
    ensures
        legal == legal_depth(colour, depth),
{
    if colour == 0 {
        depth == 1 || depth == 2 || depth == 4 || depth == 8 || depth == 16
    } else if colour == 3 {
        depth == 1 || depth == 2 || depth == 4 || depth == 8
    } else if colour == 2 || colour == 4 || colour == 6 {
        depth == 8 || depth == 16
    } else {
        false
    }
}

/// Tells whether the file begins with the signature and a header as
/// [`header_framed`] describes it.
fn is_headed(bytes: &Vec<u8>) -> (headed: bool)
    ensures
        headed == (signed(bytes@) && header_framed(bytes@)),
{
    if bytes.len() < 33 {
        return false;
    }
    if !has_tag(bytes, 0, 137, 80, 78, 71) || !has_tag(bytes, 4, 13, 10, 26, 10) {
        return false;
    }
    if read_be32(bytes, 8) != 13 || !has_tag(bytes, 12, 73, 72, 68, 82) {
        return false;
    }
    let width = read_be32(bytes, 16);
    let height = read_be32(bytes, 20);
    if width < 1 || width > MAX_SIDE || height < 1 || height > MAX_SIDE {
        return false;
    }
    is_legal_depth(bytes[25], bytes[24]) && bytes[26] == 0 && bytes[27] == 0 && bytes[28] <= 1
}

/// Tells whether the bytes are a well-framed PNG file. It walks the chunks
/// once, from the header to the end chunk, and reads nothing of their data
/// but the header's.
pub fn is_well_framed(bytes: &Vec<u8>) -> (ok: bool)
    ensures
        ok == well_framed(bytes@),
{
    if !is_headed(bytes) {
        return false;
    }
    let len = bytes.len();
    let mut at: usize = 33;
    let mut seen_data = false;
    loop
        invariant
            len == bytes.len(),
            33 <= at <= len,
            chunks_framed(bytes@, 33, false) == chunks_framed(bytes@, at as int, seen_data),
            signed(bytes@) && header_framed(bytes@),
        decreases len - at,
    {
        if len - at < 12 {
            return false;
        }
        let length = read_be32(bytes, at);
        if length as usize > len - at - 12 {
            return false;
        }
        let kind = at + 4;
        if has_tag(bytes, kind, 73, 69, 78, 68) {
            return seen_data;
        } else if has_tag(bytes, kind, 73, 72, 68, 82) {
            return false;
        } else if has_tag(bytes, kind, 97, 99, 84, 76) || has_tag(bytes, kind, 102, 99, 84, 76)
            || has_tag(bytes, kind, 102, 100, 65, 84) {
            return false;
        } else if has_tag(bytes, kind, 73, 68, 65, 84) {
            seen_data = true;
        } else if has_tag(bytes, kind, 80, 76, 84, 69) {
            if seen_data || length > 768 {
                return false;
            }
        } else if has_tag(bytes, kind, 116, 82, 78, 83) {
            if seen_data || length > 256 {
                return false;
            }
        }
        at = at + 12 + length as usize;
    }
}

} // verus!
