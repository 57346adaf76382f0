use frame_loop::bitmap::{bitmap_from, decode_png, fits, Bitmap};
use frame_loop::error::FatalError;

// Two rows of two pixels, with an alpha channel.
const RGBA_2X2: [u8; 80] = [
    137, 80, 78, 71, 13, 10, 26, 10, 0, 0, 0, 13, 73, 72, 68, 82, 0, 0, 0, 2, 0, 0, 0, 2, 8, 6, 0,
    0, 0, 114, 182, 13, 36, 0, 0, 0, 23, 73, 68, 65, 84, 120, 218, 99, 248, 207, 192, 240, 31, 8,
    27, 24, 128, 180, 3, 151, 136, 156, 6, 0, 55, 233, 5, 33, 56, 8, 107, 13, 0, 0, 0, 0, 73, 69,
    78, 68, 174, 66, 96, 130,
];

// One row of three pixels, without an alpha channel.
const RGB_3X1: [u8; 75] = [
    137, 80, 78, 71, 13, 10, 26, 10, 0, 0, 0, 13, 73, 72, 68, 82, 0, 0, 0, 3, 0, 0, 0, 1, 8, 2, 0,
    0, 0, 148, 130, 131, 227, 0, 0, 0, 18, 73, 68, 65, 84, 120, 218, 99, 96, 100, 98, 102, 97,
    101, 99, 231, 224, 4, 0, 0, 175, 0, 46, 99, 141, 52, 94, 0, 0, 0, 0, 73, 69, 78, 68, 174, 66,
    96, 130,
];

// Two rows of one grey pixel.
const GRAY_1X2: [u8; 69] = [
    137, 80, 78, 71, 13, 10, 26, 10, 0, 0, 0, 13, 73, 72, 68, 82, 0, 0, 0, 1, 0, 0, 0, 2, 8, 0, 0,
    0, 0, 188, 234, 233, 251, 0, 0, 0, 12, 73, 68, 65, 84, 120, 218, 99, 96, 103, 56, 1, 0, 0,
    225, 0, 208, 71, 180, 102, 156, 0, 0, 0, 0, 73, 69, 78, 68, 174, 66, 96, 130,
];

#[test]
fn rgba_picture_keeps_its_pixels() {
    let bitmap = decode_png(&RGBA_2X2.to_vec());
    assert_eq!(
        bitmap,
        Ok(Bitmap {
            width: 2,
            height: 2,
            pixels: vec![255, 0, 0, 255, 0, 255, 0, 128, 0, 0, 255, 64, 10, 20, 30, 40],
        })
    );
}

#[test]
fn rgb_picture_becomes_opaque() {
    let bitmap = decode_png(&RGB_3X1.to_vec());
    assert_eq!(
        bitmap,
        Ok(Bitmap { width: 3, height: 1, pixels: vec![1, 2, 3, 255, 4, 5, 6, 255, 7, 8, 9, 255] })
    );
}

#[test]
fn grey_picture_is_spread_over_the_channels() {
    let bitmap = decode_png(&GRAY_1X2.to_vec());
    assert_eq!(
        bitmap,
        Ok(Bitmap { width: 1, height: 2, pixels: vec![7, 7, 7, 255, 200, 200, 200, 255] })
    );
}

#[test]
fn decoded_buffer_has_four_bytes_for_each_pixel() {
    for bytes in [RGBA_2X2.to_vec(), RGB_3X1.to_vec(), GRAY_1X2.to_vec()] {
        let bitmap = decode_png(&bytes).unwrap();
        assert_eq!(bitmap.pixels.len(), 4 * bitmap.width as usize * bitmap.height as usize);
    }
}

#[test]
fn bytes_that_are_no_png_fail_to_decode() {
    assert_eq!(decode_png(&vec![]), Err(FatalError::AssetDecodeError));
    assert_eq!(decode_png(&b"not a picture".to_vec()), Err(FatalError::AssetDecodeError));
    assert_eq!(decode_png(&vec![0u8; 64]), Err(FatalError::AssetDecodeError));
}

#[test]
fn truncated_png_fails_to_decode() {
    assert_eq!(decode_png(&RGBA_2X2[..40].to_vec()), Err(FatalError::AssetDecodeError));
    assert_eq!(decode_png(&RGBA_2X2[..8].to_vec()), Err(FatalError::AssetDecodeError));
}

#[test]
fn decoder_error_is_a_decode_failure() {
    assert_eq!(bitmap_from(Err(image::ImageError::DimensionError)), Err(FatalError::AssetDecodeError));
    assert_eq!(bitmap_from(Err(image::ImageError::ImageEnd)), Err(FatalError::AssetDecodeError));
}

#[test]
fn decoded_picture_becomes_a_bitmap() {
    let picture = image::load_from_memory_with_format(&GRAY_1X2, image::ImageFormat::PNG).unwrap();
    assert_eq!(
        bitmap_from(Ok(picture)),
        Ok(Bitmap { width: 1, height: 2, pixels: vec![7, 7, 7, 255, 200, 200, 200, 255] })
    );
}

#[test]
fn small_pictures_fit() {
    assert!(fits(0, 0));
    assert!(fits(1, 1));
    assert!(fits(600, 420));
    assert!(fits(0, u32::MAX));
    assert_eq!(fits(u32::MAX, 0), (1u128 << 34) - 4 <= usize::MAX as u128);
}

#[test]
fn buffer_beyond_the_address_space_does_not_fit() {
    assert!(!fits(u32::MAX, u32::MAX));
    assert_eq!(fits(1 << 31, 1 << 31), (1u128 << 64) <= usize::MAX as u128);
    assert_eq!(fits(1 << 15, 1 << 15), (1u128 << 32) <= usize::MAX as u128);
}
