use platformer::bitmap::Bitmap;
use platformer::color::Color;
use platformer::geom::V2;
use platformer::text::{i32_to_string, u32_to_string, FontBitmaps};

fn glyph(width: i32, height: i32, pixel: u32) -> Bitmap {
    let mut b = Bitmap::with_dimensions(width, height);
    for y in 0..height {
        for x in 0..width {
            b.set_pixel(x, y, pixel);
        }
    }
    b
}

fn tiny_font() -> FontBitmaps {
    let chars = vec![
        ('a', glyph(2, 4, 0xFFFFFFFF)),
        ('b', glyph(3, 4, 0xFF808080)),
        (' ', glyph(1, 4, 0x00000000)),
    ];
    FontBitmaps::new(chars, 4)
}

#[test]
fn decimal_rendering_is_exact() {
    assert_eq!(u32_to_string(0).as_str(), "0");
    assert_eq!(u32_to_string(7).as_str(), "7");
    assert_eq!(u32_to_string(40960).as_str(), "40960");
    assert_eq!(i32_to_string(-13).as_str(), "-13");
    assert_eq!(i32_to_string(2147483647).as_str(), "2147483647");
    assert_eq!(i32_to_string(i32::MIN).as_str(), "-2147483648");
}

#[test]
fn font_measures_strings_by_glyph_widths() {
    let f = tiny_font();
    assert_eq!(f.height(), 4);
    assert_eq!(f.width("ab a"), 2 + 3 + 1 + 2);
    assert_eq!(f.width(""), 0);
}

#[test]
fn font_reports_unsupported_characters() {
    let f = tiny_font();
    assert!(f.supports_str("ab ba"));
    assert!(!f.supports_str("abc"));
}

#[test]
fn draw_string_blits_glyphs_left_to_right() {
    let f = tiny_font();
    let mut canvas = Bitmap::with_dimensions(10, 6).filled(Color::black());
    let adv = f.draw_string(&mut canvas, V2 { x: 1, y: 1 }, "ab");
    assert_eq!(adv, 5);
    // the opaque white 'a' replaces the RGB at its top-left corner
    assert_eq!(canvas.get_pixel(1, 1), 0x00FFFFFF);
    assert_eq!(canvas.get_pixel(2, 4), 0x00FFFFFF);
    // the grey 'b' starts after the 'a'
    assert_eq!(canvas.get_pixel(3, 1), 0x00808080);
    assert_eq!(canvas.get_pixel(5, 4), 0x00808080);
    // pixels outside the text band keep their value
    assert_eq!(canvas.get_pixel(0, 0), 0xFF000000);
    assert_eq!(canvas.get_pixel(6, 1), 0xFF000000);
    assert_eq!(canvas.get_pixel(1, 5), 0xFF000000);
}
