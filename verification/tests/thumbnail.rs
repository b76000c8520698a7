use portcullis::cache::ImageError;
use portcullis::thumbnail::{accept, Pixels, RawImage};

/// Decodes as the program does, and hands the result to the library.
fn decode_thumbnail(bytes: &[u8]) -> Result<Pixels, ImageError> {
    let raw = image::io::Reader::new(std::io::Cursor::new(bytes))
        .with_guessed_format()
        .ok()
        .and_then(|reader| reader.decode().ok())
        .map(|picture| RawImage {
            width: picture.width(),
            height: picture.height(),
            rgba: picture.into_rgba8().into_vec(),
        });
    accept(raw)
}

/// A PNG of 2 by 2 pixels without alpha: red, green, blue, and (10, 20, 30).
const RGB_PNG: [u8; 76] = [
    137, 80, 78, 71, 13, 10, 26, 10, 0, 0, 0, 13, 73, 72, 68, 82, 0, 0, 0, 2, 0, 0, 0, 2, 8, 2, 0,
    0, 0, 253, 212, 154, 115, 0, 0, 0, 19, 73, 68, 65, 84, 120, 218, 99, 248, 207, 192, 192, 0,
    194, 12, 255, 185, 68, 228, 0, 26, 88, 3, 58, 226, 146, 110, 217, 0, 0, 0, 0, 73, 69, 78, 68,
    174, 66, 96, 130,
];

/// A PNG of 3 by 1 pixels with alpha, whose bytes count from 1 to 12.
const RGBA_PNG: [u8; 78] = [
    137, 80, 78, 71, 13, 10, 26, 10, 0, 0, 0, 13, 73, 72, 68, 82, 0, 0, 0, 3, 0, 0, 0, 1, 8, 6, 0,
    0, 0, 27, 224, 20, 180, 0, 0, 0, 21, 73, 68, 65, 84, 120, 218, 99, 96, 100, 98, 102, 97, 101,
    99, 231, 224, 228, 226, 230, 1, 0, 1, 121, 0, 79, 76, 247, 38, 83, 0, 0, 0, 0, 73, 69, 78, 68,
    174, 66, 96, 130,
];

#[test]
fn png_is_decoded_to_rgba() {
    let pixels = decode_thumbnail(&RGB_PNG).unwrap();
    assert_eq!(pixels.width(), 2);
    assert_eq!(pixels.height(), 2);
    assert_eq!(
        pixels.rgba(),
        &vec![255, 0, 0, 255, 0, 255, 0, 255, 0, 0, 255, 255, 10, 20, 30, 255]
    );
}

#[test]
fn alpha_is_kept() {
    let pixels = decode_thumbnail(&RGBA_PNG).unwrap();
    assert_eq!((pixels.width(), pixels.height()), (3, 1));
    assert_eq!(pixels.rgba(), &vec![1, 2, 3, 4, 5, 6, 7, 8, 9, 10, 11, 12]);
}

#[test]
fn what_is_no_image_is_an_error_of_decoding() {
    assert_eq!(decode_thumbnail(&[]).err(), Some(ImageError::Decode));
    assert_eq!(decode_thumbnail(b"<html>404</html>").err(), Some(ImageError::Decode));
    // A PNG cut short.
    assert_eq!(decode_thumbnail(&RGB_PNG[..40]).err(), Some(ImageError::Decode));
    // A PNG with a damaged checksum in its header.
    let mut damaged = RGB_PNG;
    damaged[29] ^= 0xff;
    assert_eq!(decode_thumbnail(&damaged).err(), Some(ImageError::Decode));
}

#[test]
fn only_whole_buffers_are_accepted() {
    let whole = RawImage { width: 2, height: 3, rgba: vec![7; 24] };
    let pixels = accept(Some(whole)).unwrap();
    assert_eq!((pixels.width(), pixels.height(), pixels.rgba().len()), (2, 3, 24));
    for length in [0usize, 23, 25, 6] {
        let raw = RawImage { width: 2, height: 3, rgba: vec![7; length] };
        assert_eq!(accept(Some(raw)).err(), Some(ImageError::Decode));
    }
    assert_eq!(accept(None).err(), Some(ImageError::Decode));
    let empty = RawImage { width: 0, height: 5, rgba: Vec::new() };
    assert!(accept(Some(empty)).is_ok());
    let huge = RawImage { width: u32::MAX, height: u32::MAX, rgba: vec![0; 4] };
    assert_eq!(accept(Some(huge)).err(), Some(ImageError::Decode));
}
