//! Image decoding into pixel buffers: PNG through an external decoder,
//! and the uncompressed 32-bit BMP container parsed here byte by byte.

use vstd::prelude::*;
use crate::bitmap::Bitmap;
use crate::bytes::{le16, le32, read_u16_le, read_u32_le};
use crate::color::packed;
use crate::tilemap::lemma_row_major_index;

verus! {

/// Why decoding an image failed.
#[derive(Copy, Clone, PartialEq, Eq, Structural, Debug)]
pub enum BitmapLoadError {
    /// The caller could not read the underlying file.
    IoError,
    /// The PNG decoder rejected the data, with its error code.
    PngError(u32),
    /// The data is not in a supported container format.
    UnsupportedFormat,
    /// The file name carries no extension to dispatch on.
    NoFileExtension,
    /// The image has a zero, negative or unsupportedly large dimension.
    BadDimensions,
    /// The pixel data ends before `width * height` pixels.
    TruncatedData,
}

/// What the PNG decoder returns for given bytes: the image's width,
/// height and row-major RGBA pixels, or nothing where the bytes are not
/// a decodable PNG.  The result depends on the bytes alone.
pub uninterp spec fn png_decoded(bytes: Seq<u8>) -> Option<(usize, usize, Seq<(u8, u8, u8, u8)>)>;

/// Relies on lodepng::decode32: decodes PNG bytes into 32-bit RGBA
/// pixels, a pure function of the bytes; on failure it reports a
/// nonzero numeric error code.
#[verifier::external_body]
fn decode_png_rgba(bytes: &[u8]) -> (r: Result<(usize, usize, Vec<(u8, u8, u8, u8)>), u32>)
    ensures
        r matches Ok(t) ==> png_decoded(bytes@) == Some((t.0, t.1, t.2@)),
        r is Err ==> png_decoded(bytes@) is None,
{
    match lodepng::decode32(bytes) {
        Ok(img) => {
            let px = img.buffer.iter().map(|p| (p.r, p.g, p.b, p.a)).collect();
            Ok((img.width, img.height, px))
        },
        Err(e) => Err(lodepng::ffi::ErrorCode::from(e).0),
    }
}

/// Whether decoded image dimensions and pixel count fit a `Bitmap`.
pub open spec fn rgba_dims_ok(w: int, h: int, n: int) -> bool {
    &&& 1 <= w <= 0x8000
    &&& 1 <= h <= 0x8000
    &&& n == w * h
}

/// Builds a pixel buffer from decoded RGBA pixels, packing each as
/// `0xAARRGGBB`.  Fails with `BadDimensions` on a zero or oversized
/// dimension, and with `TruncatedData` when the pixel count is not
/// `width * height`.
pub fn from_rgba_pixels(width: usize, height: usize, px: Vec<(u8, u8, u8, u8)>) -> (r: Result<
    Bitmap,
    BitmapLoadError,
>)
    ensures
        r is Ok <==> rgba_dims_ok(width as int, height as int, px@.len() as int),
        r matches Ok(b) ==> {
            &&& b.wf()
            &&& b.spec_width() == width
            &&& b.spec_height() == height
            &&& forall|x: int, y: int|
                b.in_bounds(x, y) ==> ({
                    let p = px@[y * width + x];
                    b.pixel_at(x, y) == packed(p.3 as int, p.0 as int, p.1 as int, p.2 as int)
                })
        },
        r matches Err(e) ==> e is BadDimensions || e is TruncatedData,
        r matches Err(e) ==> (e is BadDimensions <==> !(1 <= width <= 0x8000 && 1 <= height
            <= 0x8000)),
{
    if width < 1 || width > 0x8000 || height < 1 || height > 0x8000 {
        return Err(BitmapLoadError::BadDimensions);
    }
    proof {
        assert(width * height <= 0x4000_0000) by (nonlinear_arith)
            requires
                width <= 0x8000,
                height <= 0x8000,
        ;
    }
    let n: usize = width * height;
    if px.len() != n {
        return Err(BitmapLoadError::TruncatedData);
    }
    let mut data: Vec<u32> = Vec::new();
    let mut i: usize = 0;
    while i < n
        invariant
            i <= n,
            n == px@.len(),
            data@.len() == i,
            forall|q: int|
                0 <= q < i ==> ({
                    let p = px@[q];
                    #[trigger] data@[q] == packed(p.3 as int, p.0 as int, p.1 as int, p.2 as int)
                }),
        decreases n - i,
    {
        let (cr, cg, cb, ca) = px[i];
        let v: u32 = (ca as u32) * 0x100_0000 + (cr as u32) * 0x1_0000 + (cg as u32) * 0x100 + (
        cb as u32);
        data.push(v);
        i += 1;
    }
    let b = Bitmap::from_pixels(width as i32, height as i32, data);
    proof {
        assert forall|x: int, y: int| b.in_bounds(x, y) implies ({
            let p = px@[y * (width as int) + x];
            b.pixel_at(x, y) == packed(p.3 as int, p.0 as int, p.1 as int, p.2 as int)
        }) by {
            lemma_row_major_index(width as int, height as int, x, y);
        }
    }
    Ok(b)
}

impl Bitmap {
    /// Decodes a PNG image into a pixel buffer.  Fails with `PngError`
    /// where the decoder rejects the bytes, and with `BadDimensions` or
    /// `TruncatedData` where the decoded image cannot fill a buffer.
    pub fn from_png_bytes(bytes: &[u8]) -> (r: Result<Bitmap, BitmapLoadError>)
        ensures
            r matches Err(e) && e is PngError ==> png_decoded(bytes@) is None,
            r is Ok ==> png_decoded(bytes@) is Some,
            r matches Ok(b) ==> ({
                let (w, h, px) = png_decoded(bytes@)->Some_0;
                &&& b.wf()
                &&& rgba_dims_ok(w as int, h as int, px.len() as int)
                &&& b.spec_width() == w
                &&& b.spec_height() == h
                &&& forall|x: int, y: int|
                    b.in_bounds(x, y) ==> ({
                        let p = px[y * (w as int) + x];
                        b.pixel_at(x, y) == packed(p.3 as int, p.0 as int, p.1 as int, p.2 as int)
                    })
            }),
    {
        match decode_png_rgba(bytes) {
            Ok((w, h, px)) => from_rgba_pixels(w, h, px),
            Err(code) => Err(BitmapLoadError::PngError(code)),
        }
    }
}

/// Whether two strings hold the same characters.
fn str_matches(a: &str, b: &str) -> (r: bool)
    ensures
        r == (a@ == b@),
{
    let n = a.unicode_len();
    if n != b.unicode_len() {
        proof {
            assert(a@ != b@);
        }
        return false;
    }
    let mut i: usize = 0;
    while i < n
        invariant
            i <= n,
            n == a@.len() == b@.len(),
            forall|q: int| 0 <= q < i ==> a@[q] == b@[q],
        decreases n - i,
    {
        if a.get_char(i) != b.get_char(i) {
            return false;
        }
        i += 1;
    }
    proof {
        assert(a@ =~= b@);
    }
    true
}

impl Bitmap {
    /// Decodes an image by the container its file extension names:
    /// "bmp" and "png" are the supported formats.  A missing extension
    /// or any other format is an error.
    pub fn decode(extension: Option<&str>, bytes: &[u8]) -> (r: Result<Bitmap, BitmapLoadError>)
        ensures
            extension is None ==> r == Err::<Bitmap, BitmapLoadError>(
                BitmapLoadError::NoFileExtension,
            ),
            extension matches Some(e) && e@ != "bmp"@ && e@ != "png"@ ==> r == Err::<
                Bitmap,
                BitmapLoadError,
            >(BitmapLoadError::UnsupportedFormat),
            extension matches Some(e) && e@ == "bmp"@ ==> (r is Ok <==> bmp_parse_ok(bytes@)),
            extension matches Some(e) && e@ == "png"@ && r is Ok ==> png_decoded(bytes@) is Some,
    {
        proof {
            reveal_strlit("bmp");
            reveal_strlit("png");
            assert("bmp"@ != "png"@) by {
                assert("bmp"@[0] == 'b');
                assert("png"@[0] == 'p');
            }
        }
        match extension {
            None => Err(BitmapLoadError::NoFileExtension),
            Some(e) => {
                if str_matches(e, "bmp") {
                    Bitmap::from_bmp_bytes(bytes)
                } else if str_matches(e, "png") {
                    Bitmap::from_png_bytes(bytes)
                } else {
                    Err(BitmapLoadError::UnsupportedFormat)
                }
            },
        }
    }
}

/// The fields of a BMP file header, as stored at the front of the file.
#[allow(non_snake_case)]
#[derive(Copy, Clone, PartialEq, Eq, Structural, Debug)]
pub struct BITMAPFILEHEADER {
    pub bfType: u16,
    pub bfSize: u32,
    pub bfReserved1: u16,
    pub bfReserved2: u16,
    pub bfOffBits: u32,
}

/// The leading fields of a BMP V5 info header (the part this parser
/// reads).
#[allow(non_snake_case)]
#[derive(Copy, Clone, PartialEq, Eq, Structural, Debug)]
pub struct BITMAPV5HEADER {
    pub bV5Size: u32,
    pub bV5Width: u32,
    pub bV5Height: u32,
    pub bV5Planes: u16,
    pub bV5BitCount: u16,
    pub bV5Compression: u32,
    pub bV5SizeImage: u32,
}

/// Both headers of a BMP file.
#[allow(non_snake_case)]
#[derive(Copy, Clone, PartialEq, Eq, Structural, Debug)]
pub struct BitmapHeader {
    pub BITMAPFILEHEADER: BITMAPFILEHEADER,
    pub BITMAPV5HEADER: BITMAPV5HEADER,
}

/// The container magic of a BMP file, 'B' then 'M'.
pub const BMP_MAGIC: u16 = 0x4D42;

/// Offset of the pixel data, from the file header.
pub open spec fn bmp_off(bytes: Seq<u8>) -> int {
    le32(bytes[10], bytes[11], bytes[12], bytes[13])
}

/// Image width, from the info header.
pub open spec fn bmp_width(bytes: Seq<u8>) -> int {
    le32(bytes[18], bytes[19], bytes[20], bytes[21])
}

/// Image height, from the info header.
pub open spec fn bmp_height(bytes: Seq<u8>) -> int {
    le32(bytes[22], bytes[23], bytes[24], bytes[25])
}

/// The packed pixel `(x, y)` of a BMP whose data starts at `off`: rows
/// are stored bottom-up, so screen row `y` reads file row `h - 1 - y`.
pub open spec fn bmp_pixel(bytes: Seq<u8>, w: int, h: int, off: int, x: int, y: int) -> int {
    let idx = off + 4 * ((h - 1 - y) * w + x);
    le32(bytes[idx], bytes[idx + 1], bytes[idx + 2], bytes[idx + 3])
}

/// Whether the bytes parse as a supported BMP: full headers, the BM
/// magic, positive dimensions within the supported bound, and complete
/// 32-bit pixel rows at the stated offset.
pub open spec fn bmp_parse_ok(bytes: Seq<u8>) -> bool {
    &&& bytes.len() >= 70
    &&& le16(bytes[0], bytes[1]) == BMP_MAGIC
    &&& 1 <= bmp_width(bytes) <= 0x8000
    &&& 1 <= bmp_height(bytes) <= 0x8000
    &&& bmp_off(bytes) + 4 * (bmp_width(bytes) * bmp_height(bytes)) <= bytes.len()
}

/// Reads both BMP headers.  Fails with `TruncatedData` where the data
/// ends inside the headers.
pub fn parse_bmp_header(bytes: &[u8]) -> (r: Result<BitmapHeader, BitmapLoadError>)
    ensures
        r is Ok <==> bytes@.len() >= 70,
        r matches Ok(hd) ==> {
            &&& hd.BITMAPFILEHEADER.bfType == le16(bytes@[0], bytes@[1])
            &&& hd.BITMAPFILEHEADER.bfOffBits == bmp_off(bytes@)
            &&& hd.BITMAPV5HEADER.bV5Width == bmp_width(bytes@)
            &&& hd.BITMAPV5HEADER.bV5Height == bmp_height(bytes@)
        },
        r matches Err(e) ==> e is TruncatedData,
{
    if bytes.len() < 70 {
        return Err(BitmapLoadError::TruncatedData);
    }
    let file_header = BITMAPFILEHEADER {
        bfType: read_u16_le(bytes, 0),
        bfSize: read_u32_le(bytes, 2),
        bfReserved1: read_u16_le(bytes, 6),
        bfReserved2: read_u16_le(bytes, 8),
        bfOffBits: read_u32_le(bytes, 10),
    };
    let info_header = BITMAPV5HEADER {
        bV5Size: read_u32_le(bytes, 14),
        bV5Width: read_u32_le(bytes, 18),
        bV5Height: read_u32_le(bytes, 22),
        bV5Planes: read_u16_le(bytes, 26),
        bV5BitCount: read_u16_le(bytes, 28),
        bV5Compression: read_u32_le(bytes, 30),
        bV5SizeImage: read_u32_le(bytes, 34),
    };
    Ok(BitmapHeader { BITMAPFILEHEADER: file_header, BITMAPV5HEADER: info_header })
}

impl Bitmap {
    /// Parses an uncompressed 32-bit BMP into a pixel buffer, flipping
    /// the bottom-up rows into top-down order.
    pub fn from_bmp_bytes(bytes: &[u8]) -> (r: Result<Bitmap, BitmapLoadError>)
        ensures
            r is Ok <==> bmp_parse_ok(bytes@),
            r matches Ok(b) ==> {
                &&& b.wf()
                &&& b.spec_width() == bmp_width(bytes@)
                &&& b.spec_height() == bmp_height(bytes@)
                &&& forall|x: int, y: int|
                    b.in_bounds(x, y) ==> b.pixel_at(x, y) == bmp_pixel(
                        bytes@,
                        bmp_width(bytes@),
                        bmp_height(bytes@),
                        bmp_off(bytes@),
                        x,
                        y,
                    )
            },
    {
        let hd = match parse_bmp_header(bytes) {
            Ok(hd) => hd,
            Err(e) => {
                return Err(e);
            },
        };
        if hd.BITMAPFILEHEADER.bfType != BMP_MAGIC {
            return Err(BitmapLoadError::UnsupportedFormat);
        }
        let w: u32 = hd.BITMAPV5HEADER.bV5Width;
        let h: u32 = hd.BITMAPV5HEADER.bV5Height;
        if w < 1 || w > 0x8000 || h < 1 || h > 0x8000 {
            return Err(BitmapLoadError::BadDimensions);
        }
        let off: u32 = hd.BITMAPFILEHEADER.bfOffBits;
        proof {
            assert((w as int) * (h as int) <= 0x4000_0000) by (nonlinear_arith)
                requires
                    w <= 0x8000,
                    h <= 0x8000,
            ;
        }
        let need: u64 = (off as u64) + 4 * ((w as u64) * (h as u64));
        if (bytes.len() as u64) < need {
            return Err(BitmapLoadError::TruncatedData);
        }
        let wu: usize = w as usize;
        let hu: usize = h as usize;
        let offu: usize = off as usize;
        proof {
            assert((wu as int) * (hu as int) == (w as int) * (h as int));
        }
        let mut data: Vec<u32> = Vec::new();
        let mut y: usize = 0;
        while y < hu
            invariant
                y <= hu,
                1 <= wu <= 0x8000,
                1 <= hu <= 0x8000,
                offu + 4 * (wu * hu) <= bytes@.len(),
                wu * hu <= 0x4000_0000,
                bytes@.len() <= usize::MAX,
                data@.len() == y * wu,
                forall|q: int|
                    0 <= q < data@.len() ==> data@[q] == bmp_pixel(
                        bytes@,
                        wu as int,
                        hu as int,
                        offu as int,
                        q % (wu as int),
                        q / (wu as int),
                    ),
            decreases hu - y,
        {
            let mut x: usize = 0;
            proof {
                assert((y + 1) * wu == y * wu + wu) by (nonlinear_arith);
            }
            while x < wu
                invariant
                    x <= wu,
                    y < hu,
                    1 <= wu <= 0x8000,
                    1 <= hu <= 0x8000,
                    offu + 4 * (wu * hu) <= bytes@.len(),
                    wu * hu <= 0x4000_0000,
                    bytes@.len() <= usize::MAX,
                    data@.len() == y * wu + x,
                    (y + 1) * wu == y * wu + wu,
                    forall|q: int|
                        0 <= q < data@.len() ==> data@[q] == bmp_pixel(
                            bytes@,
                            wu as int,
                            hu as int,
                            offu as int,
                            q % (wu as int),
                            q / (wu as int),
                        ),
                decreases wu - x,
            {
                proof {
                    lemma_row_major_index(wu as int, hu as int, x as int, (hu - 1 - y) as int);
                    lemma_row_major_index(wu as int, hu as int, x as int, y as int);
                    assert(4 * ((hu - 1 - y) * wu + x) + 4 <= 4 * (wu * hu) && wu * hu
                        <= 0x4000_0000) by (nonlinear_arith)
                        requires
                            0 <= (hu - 1 - y) * (wu as int) + x < wu * hu,
                            wu <= 0x8000,
                            hu <= 0x8000,
                    ;
                    vstd::arithmetic::div_mod::lemma_fundamental_div_mod_converse(
                        y * wu + x,
                        wu as int,
                        y as int,
                        x as int,
                    );
                }
                let src_row: usize = hu - 1 - y;
                let idx: usize = offu + 4 * (src_row * wu + x);
                let v = read_u32_le(bytes, idx);
                data.push(v);
                x += 1;
            }
            y += 1;
        }
        proof {
            assert(hu * wu == wu * hu) by (nonlinear_arith);
        }
        let b = Bitmap::from_pixels(w as i32, h as i32, data);
        proof {
            assert forall|x: int, y: int| b.in_bounds(x, y) implies b.pixel_at(x, y) == bmp_pixel(
                bytes@,
                bmp_width(bytes@),
                bmp_height(bytes@),
                bmp_off(bytes@),
                x,
                y,
            ) by {
                lemma_row_major_index(wu as int, hu as int, x, y);
                vstd::arithmetic::div_mod::lemma_fundamental_div_mod_converse(
                    y * (wu as int) + x,
                    wu as int,
                    y,
                    x,
                );
            }
        }
        Ok(b)
    }
}

} // verus!
