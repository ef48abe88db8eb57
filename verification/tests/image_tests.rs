use platformer::bitmap::Bitmap;
use platformer::image::{from_rgba_pixels, BitmapLoadError};

fn le32(v: u32) -> [u8; 4] {
    [v as u8, (v >> 8) as u8, (v >> 16) as u8, (v >> 24) as u8]
}

/// A minimal 32-bit BMP: 14-byte file header, 56 bytes of info header,
/// pixels bottom-up at offset 70.
fn bmp_bytes(width: u32, height: u32, rows_bottom_up: &[u32]) -> Vec<u8> {
    let mut b = Vec::new();
    b.extend_from_slice(&[0x42, 0x4D]); // "BM"
    b.extend_from_slice(&le32(0)); // size (unchecked)
    b.extend_from_slice(&[0, 0, 0, 0]); // reserved
    b.extend_from_slice(&le32(70)); // pixel data offset
    b.extend_from_slice(&le32(56)); // info header size
    b.extend_from_slice(&le32(width));
    b.extend_from_slice(&le32(height));
    b.extend_from_slice(&[1, 0]); // planes
    b.extend_from_slice(&[32, 0]); // bits per pixel
    b.extend_from_slice(&le32(0)); // compression
    b.extend_from_slice(&le32(width * height * 4)); // image size
    while b.len() < 70 {
        b.push(0);
    }
    for px in rows_bottom_up {
        b.extend_from_slice(&le32(*px));
    }
    b
}

#[test]
fn png_decode_round_trips_through_the_decoder() {
    // encode two pixels with the real encoder, decode through the
    // library, and check every channel landed in the packed form
    let pixels = [
        rgb::RGBA8 { r: 0x0A, g: 0x14, b: 0x1E, a: 0xFF },
        rgb::RGBA8 { r: 0x01, g: 0x02, b: 0x03, a: 0x00 },
    ];
    let png = lodepng::encode32(&pixels, 2, 1).unwrap();
    let bmp = Bitmap::from_png_bytes(&png).unwrap();
    assert_eq!(bmp.width(), 2);
    assert_eq!(bmp.height(), 1);
    assert_eq!(bmp.get_pixel(0, 0), 0xFF0A141E);
    assert_eq!(bmp.get_pixel(1, 0), 0x00010203);
}

#[test]
fn decode_dispatches_on_the_extension() {
    let bytes = bmp_bytes(1, 1, &[0xFF000001]);
    assert!(Bitmap::decode(Some("bmp"), &bytes).is_ok());
    assert!(matches!(
        Bitmap::decode(None, &bytes),
        Err(BitmapLoadError::NoFileExtension)
    ));
    assert!(matches!(
        Bitmap::decode(Some("gif"), &bytes),
        Err(BitmapLoadError::UnsupportedFormat)
    ));
    let pixels = [rgb::RGBA8 { r: 1, g: 2, b: 3, a: 4 }];
    let png = lodepng::encode32(&pixels, 1, 1).unwrap();
    let b = Bitmap::decode(Some("png"), &png).unwrap();
    assert_eq!(b.get_pixel(0, 0), 0x04010203);
}

#[test]
fn png_decode_rejects_garbage() {
    let r = Bitmap::from_png_bytes(&[1, 2, 3, 4, 5]);
    assert!(matches!(r, Err(BitmapLoadError::PngError(_))));
}

#[test]
fn rgba_pixels_must_match_the_dimensions() {
    let px = vec![(1u8, 2u8, 3u8, 4u8); 5];
    assert!(matches!(
        from_rgba_pixels(3, 2, px),
        Err(BitmapLoadError::TruncatedData)
    ));
    let px = vec![(1u8, 2u8, 3u8, 4u8); 4];
    assert!(matches!(
        from_rgba_pixels(0, 4, px),
        Err(BitmapLoadError::BadDimensions)
    ));
}

#[test]
fn rgba_pixels_pack_as_argb() {
    let px = vec![(0x11u8, 0x22u8, 0x33u8, 0x44u8)];
    let b = from_rgba_pixels(1, 1, px).unwrap();
    assert_eq!(b.get_pixel(0, 0), 0x44112233);
}

#[test]
fn bmp_decode_flips_bottom_up_rows() {
    // 1 wide, 2 tall: the file's first (bottom) row must land at y = 1
    let bytes = bmp_bytes(1, 2, &[0xFF000001, 0xFF000002]);
    let b = Bitmap::from_bmp_bytes(&bytes).unwrap();
    assert_eq!(b.width(), 1);
    assert_eq!(b.height(), 2);
    assert_eq!(b.get_pixel(0, 0), 0xFF000002);
    assert_eq!(b.get_pixel(0, 1), 0xFF000001);
}

#[test]
fn bmp_decode_rejects_bad_data() {
    assert!(matches!(
        Bitmap::from_bmp_bytes(&[0x42, 0x4D, 0, 0]),
        Err(BitmapLoadError::TruncatedData)
    ));
    let mut bytes = bmp_bytes(1, 1, &[0xFF000001]);
    bytes[0] = 0x51;
    assert!(matches!(
        Bitmap::from_bmp_bytes(&bytes),
        Err(BitmapLoadError::UnsupportedFormat)
    ));
    let short = bmp_bytes(4, 4, &[0; 3]);
    assert!(matches!(
        Bitmap::from_bmp_bytes(&short),
        Err(BitmapLoadError::TruncatedData)
    ));
}
