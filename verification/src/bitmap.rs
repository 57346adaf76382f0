//! Decoding the picture that the program shows.
//!
//! The picture comes as the bytes of a PNG file. This module looks at their
//! framing first and refuses a file whose chunks are not laid out as the
//! format asks. The `image` crate decodes the rest; the module then sees to
//! it that the pixels can be held and hands them on as plain rows of red,
//! green, blue and alpha, ready for a texture.

use vstd::prelude::*;
use image::GenericImageView;
use crate::error::FatalError;
use crate::png_frame::{be32, is_well_framed, well_framed, MAX_SIDE};

verus! {

/// A decoded picture of the `image` crate.
#[verifier::external_type_specification]
#[verifier::external_body]
pub struct ExDynamicImage(image::DynamicImage);

/// The reason for which the `image` crate did not decode a picture.
#[verifier::external_type_specification]
#[verifier::external_body]
pub struct ExImageError(image::ImageError);

/// What `image::load` makes of the bytes of a well-framed PNG file: width,
/// height and the pixels as RGBA bytes, or `None` where it returns an error.
pub uninterp spec fn png_pixels(bytes: Seq<u8>) -> Option<(u32, u32, Seq<u8>)>;

/// Width and height of a decoded picture, as its `dimensions` returns them.
pub uninterp spec fn image_size(picture: image::DynamicImage) -> (u32, u32);

/// The pixels of a decoded picture as `to_rgba` lays them out: row by row
/// from the top, four bytes for each pixel.
pub uninterp spec fn rgba_of(picture: image::DynamicImage) -> Seq<u8>;

/// The length of a buffer of four bytes for each pixel of a picture of the
/// given size can be computed within `usize`, as `to_rgba` computes it: four
/// times the width first, then that times the height.
pub open spec fn fits_in_memory(size: (u32, u32)) -> bool {
    &&& 4 * size.0 <= usize::MAX
    &&& (4 * size.0) * size.1 <= usize::MAX
}

/// A picture with eight bits for each of red, green, blue and alpha.
#[derive(Debug, PartialEq, Eq)]
pub struct Bitmap {
    pub width: u32,
    pub height: u32,
    /// The pixels, row by row from the top, four bytes for each.
    pub pixels: Vec<u8>,
}

impl Bitmap {
    /// The buffer holds exactly four bytes for each pixel.
    pub open spec fn well_formed(&self) -> bool {
        self.pixels@.len() == (4 * self.width) * self.height
    }
}

/// Calls `image::load` on the bytes, with PNG as the format.
///
/// The decoder sizes its row buffers once, when the picture data begins, by
/// what the header and the chunks before the data say, and indexes them by
/// what it reads later. It panics on files that break the framing of the
/// format: a bit depth that the colour type does not allow, a second header,
/// a palette or a transparency chunk among the picture data, the chunks of an
/// animation, sides so long that its sizes wrap around. `requires` leaves all
/// of those out. Of a well-framed file the contract claims that the call
/// returns, whatever the chunks hold and whether or not the compressed data
/// and the checksums are sound, and that its outcome depends on the bytes
/// alone: an error exactly where `png_pixels` is `None`, and otherwise a
/// picture with the pixels that `png_pixels` names and with the width and the
/// height that the header gives.
#[verifier::external_body]
fn load_png(bytes: &Vec<u8>) -> (decoded: Result<image::DynamicImage, image::ImageError>)
    requires
        well_framed(bytes@),
    ensures
        match decoded {
            Ok(picture) => {
                &&& png_pixels(bytes@) == Some(
                    (image_size(picture).0, image_size(picture).1, rgba_of(picture)),
                )
                &&& image_size(picture).0 == be32(bytes@, 16)
                &&& image_size(picture).1 == be32(bytes@, 20)
            },
            Err(_) => png_pixels(bytes@) is None,
        },
{
    image::load(std::io::Cursor::new(bytes.as_slice()), image::ImageFormat::PNG)
}

/// Calls `dimensions` on a decoded picture. The contract gives the result
/// its name.
#[verifier::external_body]
fn dimensions_of(picture: &image::DynamicImage) -> (size: (u32, u32))
    ensures
        size == image_size(*picture),
{
    picture.dimensions()
}

/// Calls `to_rgba` on a decoded picture and takes the buffer out of the
/// result with `into_raw`. `to_rgba` allocates four bytes for each pixel and
/// panics where it cannot compute that length within `usize`, which
/// `requires` leaves out. The contract claims that the buffer has exactly
/// that length and gives its contents their name.
#[verifier::external_body]
fn rgba_bytes(picture: &image::DynamicImage) -> (pixels: Vec<u8>)
    requires
        fits_in_memory(image_size(*picture)),
    ensures
        pixels@ == rgba_of(*picture),
        pixels@.len() == (4 * image_size(*picture).0) * image_size(*picture).1,
{
    picture.to_rgba().into_raw()
}

/// Tells whether the length of the RGBA buffer of a picture of this size can
/// be computed within `usize`.
pub fn fits(width: u32, height: u32) -> (ok: bool)
    ensures
        ok == fits_in_memory((width, height)),
{
    match 4usize.checked_mul(width as usize) {
        Some(row) => row.checked_mul(height as usize).is_some(),
        None => false,
    }
}

/// Makes a bitmap of what the decoder returned.
///
/// A picture that was decoded, and the length of whose RGBA buffer can be
/// computed within `usize`, becomes a bitmap of the same size with the
/// picture's pixels. A picture too large for that, and any error of the
/// decoder, is a decode failure.
pub fn bitmap_from(decoded: Result<image::DynamicImage, image::ImageError>) -> (bitmap: Result<
    Bitmap,
    FatalError,
>)
    ensures
        match decoded {
            Ok(picture) => if fits_in_memory(image_size(picture)) {
                &&& bitmap matches Ok(b)
                &&& b.width == image_size(picture).0
                &&& b.height == image_size(picture).1
                &&& b.pixels@ == rgba_of(picture)
                &&& b.well_formed()
            } else {
                bitmap == Err::<Bitmap, FatalError>(FatalError::AssetDecodeError)
            },
            Err(_) => bitmap == Err::<Bitmap, FatalError>(FatalError::AssetDecodeError),
        },
{
    match decoded {
        Ok(picture) => {
            let (width, height) = dimensions_of(&picture);
            if fits(width, height) {
                let pixels = rgba_bytes(&picture);
                Ok(Bitmap { width, height, pixels })
            } else {
                Err(FatalError::AssetDecodeError)
            }
        },
        Err(_) => Err(FatalError::AssetDecodeError),
    }
}

/// Decodes the bytes of a PNG file into a bitmap.
///
/// Bytes that are not a well-framed PNG file are a decode failure, and so are
/// those that the decoder returns an error for. Every other file becomes a
/// bitmap with the width and the height that its header gives and with the
/// pixels that the decoder made of it.
pub fn decode_png(bytes: &Vec<u8>) -> (bitmap: Result<Bitmap, FatalError>)
    ensures
        !well_framed(bytes@) ==> bitmap == Err::<Bitmap, FatalError>(
            FatalError::AssetDecodeError,
        ),
        well_framed(bytes@) ==> match png_pixels(bytes@) {
            Some((width, height, pixels)) => {
                &&& bitmap matches Ok(b)
                &&& b.width == width == be32(bytes@, 16)
                &&& b.height == height == be32(bytes@, 20)
                &&& b.pixels@ == pixels
                &&& b.well_formed()
            },
            None => bitmap == Err::<Bitmap, FatalError>(FatalError::AssetDecodeError),
        },
{
    if !is_well_framed(bytes) {
        return Err(FatalError::AssetDecodeError);
    }
    let decoded = load_png(bytes);
    proof {
        if decoded is Ok {
            let width = image_size(decoded->Ok_0).0;
            let height = image_size(decoded->Ok_0).1;
            assert(width <= MAX_SIDE && height <= MAX_SIDE);
            assert((4 * width) * height <= 32768 * 8192) by (nonlinear_arith)
                requires
                    0 <= 4 * width <= 32768,
                    0 <= height <= 8192,
            ;
            assert(fits_in_memory(image_size(decoded->Ok_0)));
        }
    }
    bitmap_from(decoded)
}

} // verus!
