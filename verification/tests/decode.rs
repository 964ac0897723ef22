use refract_core::alpha::clean_alpha;
use refract_core::decode::{
    decode, decode_jpeg, decode_png, finish_jpeg, finish_png, finish_rgba, rgba_size, JpegFormat,
};
use refract_core::{ColorKind, ImageKind, Input, RefractError};

/// # A 2x2 greyscale JPEG.
const JPEG_GREY: [u8; 331] = [
    0xFF, 0xD8, 0xFF, 0xE0, 0x00, 0x10, 0x4A, 0x46, 0x49, 0x46, 0x00, 0x01, 0x01, 0x00, 0x00, 0x01,
    0x00, 0x01, 0x00, 0x00, 0xFF, 0xDB, 0x00, 0x43, 0x00, 0x08, 0x06, 0x06, 0x07, 0x06, 0x05, 0x08,
    0x07, 0x07, 0x07, 0x09, 0x09, 0x08, 0x0A, 0x0C, 0x14, 0x0D, 0x0C, 0x0B, 0x0B, 0x0C, 0x19, 0x12,
    0x13, 0x0F, 0x14, 0x1D, 0x1A, 0x1F, 0x1E, 0x1D, 0x1A, 0x1C, 0x1C, 0x20, 0x24, 0x2E, 0x27, 0x20,
    0x22, 0x2C, 0x23, 0x1C, 0x1C, 0x28, 0x37, 0x29, 0x2C, 0x30, 0x31, 0x34, 0x34, 0x34, 0x1F, 0x27,
    0x39, 0x3D, 0x38, 0x32, 0x3C, 0x2E, 0x33, 0x34, 0x32, 0xFF, 0xC0, 0x00, 0x0B, 0x08, 0x00, 0x02,
    0x00, 0x02, 0x01, 0x01, 0x11, 0x00, 0xFF, 0xC4, 0x00, 0x1F, 0x00, 0x00, 0x01, 0x05, 0x01, 0x01,
    0x01, 0x01, 0x01, 0x01, 0x00, 0x00, 0x00, 0x00, 0x00, 0x00, 0x00, 0x00, 0x01, 0x02, 0x03, 0x04,
    0x05, 0x06, 0x07, 0x08, 0x09, 0x0A, 0x0B, 0xFF, 0xC4, 0x00, 0xB5, 0x10, 0x00, 0x02, 0x01, 0x03,
    0x03, 0x02, 0x04, 0x03, 0x05, 0x05, 0x04, 0x04, 0x00, 0x00, 0x01, 0x7D, 0x01, 0x02, 0x03, 0x00,
    0x04, 0x11, 0x05, 0x12, 0x21, 0x31, 0x41, 0x06, 0x13, 0x51, 0x61, 0x07, 0x22, 0x71, 0x14, 0x32,
    0x81, 0x91, 0xA1, 0x08, 0x23, 0x42, 0xB1, 0xC1, 0x15, 0x52, 0xD1, 0xF0, 0x24, 0x33, 0x62, 0x72,
    0x82, 0x09, 0x0A, 0x16, 0x17, 0x18, 0x19, 0x1A, 0x25, 0x26, 0x27, 0x28, 0x29, 0x2A, 0x34, 0x35,
    0x36, 0x37, 0x38, 0x39, 0x3A, 0x43, 0x44, 0x45, 0x46, 0x47, 0x48, 0x49, 0x4A, 0x53, 0x54, 0x55,
    0x56, 0x57, 0x58, 0x59, 0x5A, 0x63, 0x64, 0x65, 0x66, 0x67, 0x68, 0x69, 0x6A, 0x73, 0x74, 0x75,
    0x76, 0x77, 0x78, 0x79, 0x7A, 0x83, 0x84, 0x85, 0x86, 0x87, 0x88, 0x89, 0x8A, 0x92, 0x93, 0x94,
    0x95, 0x96, 0x97, 0x98, 0x99, 0x9A, 0xA2, 0xA3, 0xA4, 0xA5, 0xA6, 0xA7, 0xA8, 0xA9, 0xAA, 0xB2,
    0xB3, 0xB4, 0xB5, 0xB6, 0xB7, 0xB8, 0xB9, 0xBA, 0xC2, 0xC3, 0xC4, 0xC5, 0xC6, 0xC7, 0xC8, 0xC9,
    0xCA, 0xD2, 0xD3, 0xD4, 0xD5, 0xD6, 0xD7, 0xD8, 0xD9, 0xDA, 0xE1, 0xE2, 0xE3, 0xE4, 0xE5, 0xE6,
    0xE7, 0xE8, 0xE9, 0xEA, 0xF1, 0xF2, 0xF3, 0xF4, 0xF5, 0xF6, 0xF7, 0xF8, 0xF9, 0xFA, 0xFF, 0xDA,
    0x00, 0x08, 0x01, 0x01, 0x00, 0x00, 0x3F, 0x00, 0x2B, 0xFF, 0xD9,
];

/// # A 16x16 color JPEG.
const JPEG_COLOR: [u8; 543] = [
    0xFF, 0xD8, 0xFF, 0xE0, 0x00, 0x10, 0x4A, 0x46, 0x49, 0x46, 0x00, 0x01, 0x01, 0x01, 0x00, 0x01,
    0x00, 0x01, 0x00, 0x00, 0xFF, 0xDB, 0x00, 0x43, 0x00, 0x03, 0x02, 0x02, 0x02, 0x02, 0x02, 0x03,
    0x02, 0x02, 0x02, 0x03, 0x03, 0x03, 0x03, 0x04, 0x06, 0x04, 0x04, 0x04, 0x04, 0x04, 0x08, 0x06,
    0x06, 0x05, 0x06, 0x09, 0x08, 0x0A, 0x0A, 0x09, 0x08, 0x09, 0x09, 0x0A, 0x0C, 0x0F, 0x0C, 0x0A,
    0x0B, 0x0E, 0x0B, 0x09, 0x09, 0x0D, 0x11, 0x0D, 0x0E, 0x0F, 0x10, 0x10, 0x11, 0x10, 0x0A, 0x0C,
    0x12, 0x13, 0x12, 0x10, 0x13, 0x0F, 0x10, 0x10, 0x10, 0xFF, 0xDB, 0x00, 0x43, 0x01, 0x03, 0x03,
    0x03, 0x04, 0x03, 0x04, 0x08, 0x04, 0x04, 0x08, 0x10, 0x0B, 0x09, 0x0B, 0x10, 0x10, 0x10, 0x10,
    0x10, 0x10, 0x10, 0x10, 0x10, 0x10, 0x10, 0x10, 0x10, 0x10, 0x10, 0x10, 0x10, 0x10, 0x10, 0x10,
    0x10, 0x10, 0x10, 0x10, 0x10, 0x10, 0x10, 0x10, 0x10, 0x10, 0x10, 0x10, 0x10, 0x10, 0x10, 0x10,
    0x10, 0x10, 0x10, 0x10, 0x10, 0x10, 0x10, 0x10, 0x10, 0x10, 0x10, 0x10, 0x10, 0x10, 0xFF, 0xC0,
    0x00, 0x11, 0x08, 0x00, 0x10, 0x00, 0x10, 0x03, 0x01, 0x22, 0x00, 0x02, 0x11, 0x01, 0x03, 0x11,
    0x01, 0xFF, 0xC4, 0x00, 0x16, 0x00, 0x01, 0x01, 0x01, 0x00, 0x00, 0x00, 0x00, 0x00, 0x00, 0x00,
    0x00, 0x00, 0x00, 0x00, 0x00, 0x00, 0x07, 0x04, 0x05, 0xFF, 0xC4, 0x00, 0x24, 0x10, 0x00, 0x01,
    0x04, 0x01, 0x04, 0x02, 0x02, 0x03, 0x00, 0x00, 0x00, 0x00, 0x00, 0x00, 0x00, 0x00, 0x01, 0x02,
    0x03, 0x04, 0x06, 0x05, 0x07, 0x08, 0x12, 0x13, 0x11, 0x22, 0x00, 0x14, 0x09, 0x31, 0x32, 0xFF,
    0xC4, 0x00, 0x15, 0x01, 0x01, 0x01, 0x00, 0x00, 0x00, 0x00, 0x00, 0x00, 0x00, 0x00, 0x00, 0x00,
    0x00, 0x00, 0x00, 0x00, 0x00, 0x06, 0xFF, 0xC4, 0x00, 0x23, 0x11, 0x00, 0x01, 0x02, 0x05, 0x03,
    0x05, 0x00, 0x00, 0x00, 0x00, 0x00, 0x00, 0x00, 0x00, 0x00, 0x00, 0x01, 0x02, 0x11, 0x03, 0x04,
    0x05, 0x06, 0x21, 0x00, 0x12, 0x31, 0x15, 0x16, 0x61, 0x81, 0xE1, 0xFF, 0xDA, 0x00, 0x0C, 0x03,
    0x01, 0x00, 0x02, 0x11, 0x03, 0x11, 0x00, 0x3F, 0x00, 0x14, 0xA6, 0xD2, 0x6A, 0x1B, 0x73, 0xC1,
    0xE6, 0x13, 0x12, 0xD4, 0x95, 0x1C, 0xF3, 0x11, 0x63, 0xE4, 0x25, 0x65, 0xBE, 0xBA, 0x5A, 0xEC,
    0x69, 0x45, 0x40, 0xB1, 0xE5, 0x20, 0xB2, 0x54, 0xA5, 0x1F, 0xD2, 0xCA, 0xB8, 0xFA, 0xF2, 0x20,
    0xAB, 0x96, 0x3D, 0x97, 0x6C, 0x93, 0x35, 0xE6, 0x9B, 0x77, 0xD7, 0xE6, 0x6D, 0xA7, 0x17, 0x81,
    0xA5, 0x57, 0x1C, 0x7F, 0x1C, 0xEA, 0x71, 0xE2, 0x4B, 0x39, 0xD7, 0xE3, 0x22, 0x53, 0xF2, 0x1A,
    0x69, 0xDE, 0xD4, 0x71, 0x4A, 0x38, 0xB4, 0x82, 0xE8, 0x4B, 0x89, 0x2A, 0x71, 0x69, 0x1E, 0xCD,
    0x2D, 0x21, 0x3B, 0xF1, 0xEF, 0xB9, 0x1A, 0x74, 0xAC, 0xEE, 0xA1, 0x5A, 0x75, 0x8E, 0xD5, 0x48,
    0xAC, 0x65, 0x5B, 0x85, 0x8B, 0x81, 0x85, 0x7B, 0x21, 0x29, 0x98, 0x67, 0xA9, 0x6B, 0x94, 0xB9,
    0x49, 0x65, 0x4F, 0xB9, 0xC8, 0x85, 0x29, 0x11, 0x4B, 0x81, 0x2A, 0xF0, 0x7A, 0xD9, 0xF2, 0x3C,
    0x80, 0x7E, 0x55, 0xBE, 0x0D, 0xF6, 0x62, 0xA1, 0x40, 0xCC, 0xE8, 0xE6, 0x9A, 0x3D, 0x5C, 0xB7,
    0x43, 0xB3, 0xD7, 0x7A, 0x65, 0x58, 0xB1, 0xD9, 0x51, 0x21, 0x88, 0xBF, 0x64, 0xB8, 0xD3, 0xF1,
    0xC3, 0x68, 0x04, 0x29, 0xC0, 0xD0, 0xFE, 0xBB, 0x3C, 0x02, 0xE0, 0x3C, 0x54, 0x07, 0xB4, 0xBD,
    0xD9, 0x7B, 0x54, 0xE6, 0x27, 0xFB, 0x6E, 0xDF, 0x94, 0x60, 0x14, 0x82, 0x62, 0x13, 0x8D, 0xB8,
    0x52, 0x98, 0x28, 0x37, 0x05, 0x89, 0x72, 0x79, 0x60, 0xE4, 0x32, 0x89, 0x6F, 0xC3, 0x82, 0x8E,
    0xA7, 0x52, 0x8C, 0xEA, 0x20, 0x8D, 0xBE, 0x78, 0x19, 0x1F, 0x07, 0xAD, 0x7F, 0xFF, 0xD9,
];

/// # A PNG of the given RGBA pixels.
fn png(px: &[u8], w: usize, h: usize) -> Vec<u8> {
    lodepng::encode32(px, w, h).expect("PNG encoding failed.")
}

#[test]
fn t_decode_png_color() {
    let px: Vec<u8> = (0..3 * 3).flat_map(|i| [i as u8 * 20, 7, 9, 255]).collect();
    let (buf, w, h, color) = decode_png(&png(&px, 3, 3)).unwrap();
    assert_eq!((w, h, color), (3, 3, ColorKind::Rgb));
    assert_eq!(buf, px);
}

#[test]
fn t_decode_png_grey() {
    let px: Vec<u8> = (0..4 * 2).flat_map(|i| [i as u8, i as u8, i as u8, 255]).collect();
    let (buf, w, h, color) = decode_png(&png(&px, 4, 2)).unwrap();
    assert_eq!((w, h, color), (4, 2, ColorKind::Grey));
    assert_eq!(buf, px);
}

#[test]
fn t_decode_png_alpha() {
    let mut px = Vec::new();
    for y in 0..4 {
        for x in 0..4 {
            if x < 2 && y < 2 { px.extend_from_slice(&[0, 0, 255, 0]); }
            else if x < 3 && y < 3 { px.extend_from_slice(&[0, 255, 0, 128]); }
            else { px.extend_from_slice(&[255, 0, 0, 255]); }
        }
    }
    let (buf, w, h, color) = decode_png(&png(&px, 4, 4)).unwrap();
    assert_eq!((w, h, color), (4, 4, ColorKind::Rgba));

    // The alpha has been cleaned up.
    let mut cleaned = px.clone();
    clean_alpha(&mut cleaned, 4, 4);
    assert_eq!(buf, cleaned);
    assert_ne!(buf, px);
}

#[test]
fn t_decode_png_bad() {
    let mut raw = png(&[1, 2, 3, 255], 1, 1);
    let len = raw.len();
    raw[len / 2] ^= 0xFF;
    raw[len - 5] ^= 0xFF;
    assert_eq!(decode_png(&raw).err(), Some(RefractError::Decode));
    assert_eq!(decode_png(b"not a png at all").err(), Some(RefractError::Decode));
}

#[test]
fn t_finish_png() {
    assert_eq!(finish_png(vec![0; 10], 2, 2).err(), Some(RefractError::Decode));
    assert_eq!(finish_png(Vec::new(), usize::MAX, 2).err(), Some(RefractError::Overflow));
    let (buf, w, h, color) = finish_png(vec![9, 9, 9, 255], 1, 1).unwrap();
    assert_eq!((buf, w, h, color), (vec![9, 9, 9, 255], 1, 1, ColorKind::Grey));
}

#[test]
fn t_decode_jpeg_grey() {
    let (buf, w, h, color) = decode_jpeg(&JPEG_GREY).unwrap();
    assert_eq!((w, h, color), (2, 2, ColorKind::Grey));
    assert_eq!(buf.len(), 2 * 2 * 4);
    for px in buf.chunks_exact(4) {
        assert_eq!(px[0], px[1]);
        assert_eq!(px[0], px[2]);
        assert_eq!(px[3], 255);
    }
}

#[test]
fn t_decode_jpeg_color() {
    let (buf, w, h, color) = decode_jpeg(&JPEG_COLOR).unwrap();
    assert_eq!((w, h), (16, 16));
    assert_eq!(buf.len(), 16 * 16 * 4);
    assert_eq!(color, ColorKind::from_rgba(&buf));
    assert!(color.is_color());
    assert!(buf.chunks_exact(4).all(|px| px[3] == 255));
}

#[test]
fn t_decode_jpeg_bad() {
    let mut raw = JPEG_GREY.to_vec();
    raw.truncate(40);
    assert_eq!(decode_jpeg(&raw).err(), Some(RefractError::Decode));
}

#[test]
fn t_finish_jpeg() {
    assert_eq!(finish_jpeg(vec![1, 2], None).err(), Some(RefractError::Decode));
    assert_eq!(finish_jpeg(vec![0; 8], Some((2, 2, JpegFormat::L16))).err(), Some(RefractError::Color));
    assert_eq!(finish_jpeg(vec![0; 16], Some((2, 2, JpegFormat::Cmyk32))).err(), Some(RefractError::Color));
    assert_eq!(finish_jpeg(vec![0; 3], Some((2, 2, JpegFormat::L8))).err(), Some(RefractError::Overflow));

    let (buf, w, h, color) = finish_jpeg(vec![10, 20], Some((2, 1, JpegFormat::L8))).unwrap();
    assert_eq!((buf, w, h, color), (vec![10, 10, 10, 255, 20, 20, 20, 255], 2, 1, ColorKind::Grey));

    // Trailing samples that make up no pixel are dropped.
    let (buf, w, h, color) = finish_jpeg(vec![1, 2, 3, 4], Some((1, 1, JpegFormat::Rgb24))).unwrap();
    assert_eq!((buf, w, h, color), (vec![1, 2, 3, 255], 1, 1, ColorKind::Rgb));
}

#[test]
fn t_decode() {
    let raw = png(&[5, 5, 5, 255, 6, 6, 6, 255], 2, 1);
    let (buf, w, h, color, kind) = decode(&raw).unwrap();
    assert_eq!((w, h, color, kind), (2, 1, ColorKind::Grey, ImageKind::Png));
    assert_eq!(buf, vec![5, 5, 5, 255, 6, 6, 6, 255]);

    let (_, w, h, _, kind) = decode(&JPEG_GREY).unwrap();
    assert_eq!((w, h, kind), (2, 2, ImageKind::Jpeg));

    assert_eq!(decode(b"definitely not an image").err(), Some(RefractError::Image));
    assert_eq!(decode(b"RIFF\x10\x00\x00\x00WEBPVP8 ").err(), Some(RefractError::ImageDecode(ImageKind::Webp)));
    assert_eq!(
        ImageKind::Avif.decode(b"whatever").err(),
        Some(RefractError::ImageDecode(ImageKind::Avif)),
    );
}

#[test]
fn t_input_try_from() {
    let raw = png(&[1, 2, 3, 255, 4, 5, 6, 255, 7, 8, 9, 255], 3, 1);
    let input = Input::try_from(&raw).unwrap();
    assert_eq!(input.width(), 3);
    assert_eq!(input.height(), 1);
    assert_eq!(input.size(), raw.len());
    assert_eq!(input.kind(), ImageKind::Png);
    assert_eq!(input.color(), ColorKind::Rgb);
    assert_eq!(input.depth(), ColorKind::Rgba);
    assert_eq!(input.pixels(), &[1, 2, 3, 255, 4, 5, 6, 255, 7, 8, 9, 255]);

    assert_eq!(Input::try_from(b"nope").err(), Some(RefractError::Image));
}

#[test]
fn t_rgba_size() {
    assert_eq!(rgba_size(2, 3), Ok(24));
    assert_eq!(rgba_size(0, 5), Ok(0));
    assert_eq!(rgba_size(-1, 5), Err(RefractError::Overflow));
    assert_eq!(rgba_size(5, -1), Err(RefractError::Overflow));
    assert_eq!(rgba_size(i64::MAX, 2), Err(RefractError::Overflow));
}

#[test]
fn t_finish_rgba() {
    let px = vec![1, 2, 3, 255, 4, 5, 6, 255];
    let (buf, w, h, color) = finish_rgba(px.clone(), 2, 1).unwrap();
    assert_eq!((buf, w, h, color), (px.clone(), 2, 1, ColorKind::Rgb));

    let grey = vec![7, 7, 7, 255, 9, 9, 9, 128];
    let (_, _, _, color) = finish_rgba(grey, 1, 2).unwrap();
    assert_eq!(color, ColorKind::GreyAlpha);

    // The wrong number of bytes.
    assert_eq!(finish_rgba(px.clone(), 1, 1).err(), Some(RefractError::Decode));
    // Dimensions out of range.
    assert_eq!(finish_rgba(px, -2, 1).err(), Some(RefractError::Overflow));
}

#[test]
fn t_input_from_foreign() {
    let raw = b"RIFF\x10\x00\x00\x00WEBPVP8 ".to_vec();
    let px = vec![1, 2, 3, 255, 4, 5, 6, 255];
    let input = Input::from_foreign(&raw, Ok((px.clone(), 2, 1))).unwrap();
    assert_eq!(input.kind(), ImageKind::Webp);
    assert_eq!((input.width(), input.height()), (2, 1));
    assert_eq!(input.size(), raw.len());
    assert_eq!(input.color(), ColorKind::Rgb);
    assert_eq!(input.pixels(), px.as_slice());

    // The decoder's own error comes through.
    assert_eq!(
        Input::from_foreign(&raw, Err(RefractError::Decode)).err(),
        Some(RefractError::Decode),
    );
    // A buffer that does not match.
    assert_eq!(
        Input::from_foreign(&raw, Ok((px.clone(), 3, 1))).err(),
        Some(RefractError::Decode),
    );
    // A file of no known kind.
    assert_eq!(
        Input::from_foreign(b"nope", Ok((px, 2, 1))).err(),
        Some(RefractError::Image),
    );
}
