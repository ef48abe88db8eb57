use platformer::bitmap::Bitmap;
use platformer::color::Color;
use platformer::geom::V2;
use platformer::render::{blend, clear, draw_bmp, draw_line, draw_rect, fill_rect, scale_up};

fn solid(width: i32, height: i32, c: Color) -> Bitmap {
    Bitmap::with_dimensions(width, height).filled(c)
}

#[test]
fn fill_rect_overshooting_bounds_fills_everything() {
    let w = 7;
    let h = 5;
    let mut b = Bitmap::with_dimensions(w, h);
    fill_rect(
        &mut b,
        V2 { x: -5, y: -5 },
        V2 { x: w + 5, y: h + 5 },
        Color::rgb8(1, 2, 3),
    );
    for y in 0..h {
        for x in 0..w {
            assert_eq!(b.get_pixel(x, y), 0xFF010203);
        }
    }
}

#[test]
fn fill_rect_swaps_inverted_corners() {
    let mut b = Bitmap::with_dimensions(4, 4);
    fill_rect(&mut b, V2 { x: 3, y: 3 }, V2 { x: 1, y: 1 }, Color::white());
    for y in 0..4 {
        for x in 0..4 {
            let expect = if (1..3).contains(&x) && (1..3).contains(&y) { 0xFFFFFFFF } else { 0 };
            assert_eq!(b.get_pixel(x, y), expect);
        }
    }
}

#[test]
fn clear_overwrites_every_pixel() {
    let mut b = solid(3, 3, Color::yellow());
    clear(&mut b, Color::black());
    for y in 0..3 {
        for x in 0..3 {
            assert_eq!(b.get_pixel(x, y), 0xFF000000);
        }
    }
}

#[test]
fn draw_rect_paints_only_the_border() {
    let mut b = Bitmap::with_dimensions(5, 5);
    draw_rect(&mut b, V2 { x: 0, y: 0 }, V2 { x: 5, y: 5 }, Color::white(), 1);
    assert_eq!(b.get_pixel(0, 0), 0xFFFFFFFF);
    assert_eq!(b.get_pixel(4, 0), 0xFFFFFFFF);
    assert_eq!(b.get_pixel(0, 4), 0xFFFFFFFF);
    assert_eq!(b.get_pixel(4, 4), 0xFFFFFFFF);
    assert_eq!(b.get_pixel(2, 0), 0xFFFFFFFF);
    assert_eq!(b.get_pixel(0, 2), 0xFFFFFFFF);
    assert_eq!(b.get_pixel(2, 2), 0);
    assert_eq!(b.get_pixel(1, 1), 0);
}

#[test]
fn draw_rect_degenerate_is_a_no_op() {
    let mut b = Bitmap::with_dimensions(3, 3);
    draw_rect(&mut b, V2 { x: 2, y: 2 }, V2 { x: 2, y: 2 }, Color::white(), 1);
    draw_rect(&mut b, V2 { x: 2, y: 2 }, V2 { x: 1, y: 1 }, Color::white(), 1);
    for y in 0..3 {
        for x in 0..3 {
            assert_eq!(b.get_pixel(x, y), 0);
        }
    }
}

#[test]
fn draw_line_steps_the_dominant_axis() {
    let mut b = Bitmap::with_dimensions(8, 8);
    // a shallow line: 6 pixels across, 3 down
    draw_line(&mut b, V2 { x: 0, y: 0 }, V2 { x: 6, y: 3 }, Color::white(), 1);
    let mut painted = vec![];
    for y in 0..8 {
        for x in 0..8 {
            if b.get_pixel(x, y) == 0xFFFFFFFF {
                painted.push((x, y));
            }
        }
    }
    // one pixel per column walked, endpoint exclusive
    assert_eq!(painted.len(), 6);
    for (x, _) in &painted {
        assert!(*x < 6);
    }
    // the error accumulator steps down when it reaches one half
    assert!(painted.contains(&(0, 0)));
    assert!(painted.contains(&(1, 1)));
    assert!(painted.contains(&(2, 1)));
    assert!(painted.contains(&(3, 2)));
    assert!(painted.contains(&(4, 2)));
    assert!(painted.contains(&(5, 3)));
}

#[test]
fn draw_line_skips_out_of_bounds_pixels() {
    let mut b = Bitmap::with_dimensions(2, 2);
    draw_line(&mut b, V2 { x: -3, y: 0 }, V2 { x: 5, y: 0 }, Color::white(), 1);
    assert_eq!(b.get_pixel(0, 0), 0xFFFFFFFF);
    assert_eq!(b.get_pixel(1, 0), 0xFFFFFFFF);
    assert_eq!(b.get_pixel(0, 1), 0);
    assert_eq!(b.get_pixel(1, 1), 0);
}

#[test]
fn blend_boundaries() {
    // fully opaque source replaces RGB and zeroes the alpha byte
    assert_eq!(blend(0xFF102030, 0xFFAABBCC), 0x00AABBCC);
    // fully transparent source keeps RGB and zeroes the alpha byte
    assert_eq!(blend(0xFF102030, 0x00AABBCC), 0x00102030);
    // half alpha lerps each channel toward the source
    let half = blend(0x00000000, 0x80FFFFFF);
    assert_eq!(half, 0x00808080);
}

#[test]
fn draw_bmp_blits_opaque_and_transparent() {
    let mut dst = solid(4, 4, Color::rgb8(0x10, 0x20, 0x30));
    let mut src = Bitmap::with_dimensions(2, 1);
    src.set_pixel(0, 0, 0xFFAABBCC);
    src.set_pixel(1, 0, 0x00112233);
    draw_bmp(&mut dst, &src, V2 { x: 1, y: 2 });
    // opaque pixel replaces the RGB exactly (alpha byte zeroed)
    assert_eq!(dst.get_pixel(1, 2), 0x00AABBCC);
    // transparent pixel keeps the destination RGB (alpha byte zeroed)
    assert_eq!(dst.get_pixel(2, 2), 0x00102030);
    // pixels outside the blit region keep their value
    assert_eq!(dst.get_pixel(0, 0), 0xFF102030);
    assert_eq!(dst.get_pixel(3, 3), 0xFF102030);
}

#[test]
fn draw_bmp_clips_to_the_destination() {
    let mut dst = solid(2, 2, Color::black());
    let mut src = Bitmap::with_dimensions(3, 3);
    for y in 0..3 {
        for x in 0..3 {
            src.set_pixel(x, y, 0xFFFFFFFF);
        }
    }
    draw_bmp(&mut dst, &src, V2 { x: -1, y: -1 });
    for y in 0..2 {
        for x in 0..2 {
            assert_eq!(dst.get_pixel(x, y), 0x00FFFFFF);
        }
    }
}

#[test]
fn scale_up_expands_each_pixel() {
    let mut src = Bitmap::with_dimensions(2, 1);
    src.set_pixel(0, 0, 0xFF000001);
    src.set_pixel(1, 0, 0xFF000002);
    let mut dst = Bitmap::with_dimensions(5, 3);
    scale_up(&src, &mut dst, 2);
    for y in 0..2 {
        for x in 0..2 {
            assert_eq!(dst.get_pixel(x, y), 0xFF000001);
        }
        for x in 2..4 {
            assert_eq!(dst.get_pixel(x, y), 0xFF000002);
        }
    }
    // untouched pixels keep their value
    assert_eq!(dst.get_pixel(4, 0), 0);
    assert_eq!(dst.get_pixel(0, 2), 0);
}
