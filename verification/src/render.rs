//! The software compositor: rectangle fill and outline, line
//! rasterization, alpha-blended blits, and integer upscaling, all over
//! `Bitmap` pixel buffers.

use vstd::prelude::*;
use crate::bitmap::{Bitmap, BitmapView, clamp_spec};
use crate::color::{Color, packed, alpha_of, red_of, green_of, blue_of};
use crate::geom::{V2, V2i};

verus! {

/// The packed form of a color.
pub open spec fn color_u32(c: Color) -> u32 {
    packed(c.a as int, c.r as int, c.g as int, c.b as int) as u32
}

/// The rectangle `[min, max)` with inverted corners swapped per axis,
/// as the set of pixels it covers.
pub open spec fn fill_region(min: V2i, max: V2i, x: int, y: int) -> bool {
    let x0 = if min.x <= max.x {
        min.x as int
    } else {
        max.x as int
    };
    let x1 = if min.x <= max.x {
        max.x as int
    } else {
        min.x as int
    };
    let y0 = if min.y <= max.y {
        min.y as int
    } else {
        max.y as int
    };
    let y1 = if min.y <= max.y {
        max.y as int
    } else {
        min.y as int
    };
    x0 <= x < x1 && y0 <= y < y1
}

/// Fills the rectangle `[min, max)` with `color`, swapping inverted
/// corners and clipping to the buffer; a no-op where the clipped region
/// is empty.  No pixel outside the region changes.
pub fn fill_rect(dst: &mut Bitmap, min: V2i, max: V2i, color: Color)
    requires
        old(dst).wf(),
    ensures
        final(dst).wf(),
        final(dst).same_dims(*old(dst)),
        forall|x: int, y: int|
            final(dst).in_bounds(x, y) ==> final(dst).pixel_at(x, y) == (if fill_region(
                min,
                max,
                x,
                y,
            ) {
                color_u32(color)
            } else {
                old(dst).pixel_at(x, y)
            }),
{
    let lo = V2 {
        x: if min.x <= max.x {
            min.x
        } else {
            max.x
        },
        y: if min.y <= max.y {
            min.y
        } else {
            max.y
        },
    };
    let hi = V2 {
        x: if min.x <= max.x {
            max.x
        } else {
            min.x
        },
        y: if min.y <= max.y {
            max.y
        } else {
            min.y
        },
    };
    let view = dst.clamped_view(lo, hi);
    let v = color.as_u32();
    let mut y = view.y0;
    while y < view.y1
        invariant
            dst.wf(),
            dst.same_dims(*old(dst)),
            view.wf(*dst),
            view.y0 <= y <= view.y1,
            v == color_u32(color),
            view == crate::bitmap::clip_view(*old(dst), lo, hi),
            forall|px: int, py: int|
                dst.in_bounds(px, py) ==> dst.pixel_at(px, py) == (if view.contains(px, py) && py
                    < y {
                    v
                } else {
                    old(dst).pixel_at(px, py)
                }),
        decreases view.y1 - y,
    {
        let mut x = view.x0;
        while x < view.x1
            invariant
                dst.wf(),
                dst.same_dims(*old(dst)),
                view.wf(*dst),
                view.y0 <= y < view.y1,
                view.x0 <= x <= view.x1,
                v == color_u32(color),
                forall|px: int, py: int|
                    dst.in_bounds(px, py) ==> dst.pixel_at(px, py) == (if view.contains(px, py) && (
                    py < y || (py == y && px < x)) {
                        v
                    } else {
                        old(dst).pixel_at(px, py)
                    }),
            decreases view.x1 - x,
        {
            dst.set_pixel(x, y, v);
            x += 1;
        }
        y += 1;
    }
    proof {
        assert forall|x: int, y: int| dst.in_bounds(x, y) implies dst.pixel_at(x, y) == (
        if fill_region(min, max, x, y) {
            color_u32(color)
        } else {
            old(dst).pixel_at(x, y)
        }) by {
            assert(view.contains(x, y) == fill_region(min, max, x, y));
        }
    }
}

/// Fills the whole buffer with `color`.
pub fn clear(dst: &mut Bitmap, color: Color)
    requires
        old(dst).wf(),
    ensures
        final(dst).wf(),
        final(dst).same_dims(*old(dst)),
        forall|x: int, y: int|
            final(dst).in_bounds(x, y) ==> final(dst).pixel_at(x, y) == color_u32(color),
{
    let d = dst.dim();
    fill_rect(dst, V2 { x: 0, y: 0 }, d, color);
}

/// The pixels covered by a rectangle outline: inside `[min, max)` and
/// within `thickness` of one of its four edges.
pub open spec fn outline_region(min: V2i, max: V2i, thickness: int, x: int, y: int) -> bool {
    &&& min.x <= x < max.x
    &&& min.y <= y < max.y
    &&& (x < min.x + thickness || max.x - thickness <= x || y < min.y + thickness || max.y
        - thickness <= y)
}

/// Draws a `thickness`-pixel border along the four edges of
/// `[min, max)`, each edge clipped to the buffer independently.
/// Degenerate extents and non-positive thickness draw nothing.
pub fn draw_rect(dst: &mut Bitmap, min: V2i, max: V2i, color: Color, thickness: i32)
    requires
        old(dst).wf(),
        -0x4000_0000 < min.x < 0x4000_0000,
        -0x4000_0000 < min.y < 0x4000_0000,
        -0x4000_0000 < max.x < 0x4000_0000,
        -0x4000_0000 < max.y < 0x4000_0000,
        thickness < 0x4000_0000,
    ensures
        final(dst).wf(),
        final(dst).same_dims(*old(dst)),
        forall|x: int, y: int|
            final(dst).in_bounds(x, y) ==> final(dst).pixel_at(x, y) == (if outline_region(
                min,
                max,
                thickness as int,
                x,
                y,
            ) {
                color_u32(color)
            } else {
                old(dst).pixel_at(x, y)
            }),
{
    if max.x <= min.x || max.y <= min.y || thickness <= 0 {
        return ;
    }
    let top_cap: i32 = if min.y + thickness < max.y {
        min.y + thickness
    } else {
        max.y
    };
    let bottom_cap: i32 = if max.y - thickness > min.y {
        max.y - thickness
    } else {
        min.y
    };
    let left_cap: i32 = if min.x + thickness < max.x {
        min.x + thickness
    } else {
        max.x
    };
    let right_cap: i32 = if max.x - thickness > min.x {
        max.x - thickness
    } else {
        min.x
    };
    fill_rect(dst, V2 { x: min.x, y: min.y }, V2 { x: max.x, y: top_cap }, color);
    fill_rect(dst, V2 { x: min.x, y: bottom_cap }, V2 { x: max.x, y: max.y }, color);
    fill_rect(dst, V2 { x: min.x, y: min.y }, V2 { x: left_cap, y: max.y }, color);
    fill_rect(dst, V2 { x: right_cap, y: min.y }, V2 { x: max.x, y: max.y }, color);
}

/// One channel of the alpha lerp `d + (s - d) * a / 255`, the division
/// truncating toward zero.
pub open spec fn blend_channel(d: int, s: int, a: int) -> int {
    if s >= d {
        d + (s - d) * a / 255
    } else {
        d - (d - s) * a / 255
    }
}

/// The composite of a source pixel over a destination pixel: each color
/// channel alpha-lerped by the source's alpha, the destination's alpha
/// byte overwritten with zero.
pub open spec fn blend_pixel(dstv: int, srcv: int) -> int {
    let a = alpha_of(srcv);
    packed(
        0,
        blend_channel(red_of(dstv), red_of(srcv), a),
        blend_channel(green_of(dstv), green_of(srcv), a),
        blend_channel(blue_of(dstv), blue_of(srcv), a),
    )
}

/// One channel of the alpha lerp.
fn blend_channel_exec(d: u32, s: u32, a: u32) -> (r: u32)
    requires
        d < 256,
        s < 256,
        a < 256,
    ensures
        r == blend_channel(d as int, s as int, a as int),
        r < 256,
{
    if s >= d {
        proof {
            lemma_scaled_fraction_bound((s - d) as int, a as int);
        }
        let t = (s - d) * a / 255;
        d + t
    } else {
        proof {
            lemma_scaled_fraction_bound((d - s) as int, a as int);
        }
        let t = (d - s) * a / 255;
        d - t
    }
}

/// `c * a / 255 <= c` for a channel difference `c` and alpha `a` below
/// 256, so the lerp stays inside the channel range.
proof fn lemma_scaled_fraction_bound(c: int, a: int)
    requires
        0 <= c < 256,
        0 <= a < 256,
    ensures
        0 <= c * a / 255 <= c,
{
    assert(0 <= c * a <= c * 255) by (nonlinear_arith)
        requires
            0 <= c < 256,
            0 <= a < 256,
    ;
    vstd::arithmetic::div_mod::lemma_div_is_ordered(c * a, c * 255, 255);
    vstd::arithmetic::div_mod::lemma_div_pos_is_pos(c * a, 255);
    assert(c * 255 / 255 == c) by {
        vstd::arithmetic::div_mod::lemma_fundamental_div_mod_converse(c * 255, 255, c, 0);
    }
}

/// The composite of a source pixel over a destination pixel.
pub fn blend(dstv: u32, srcv: u32) -> (r: u32)
    ensures
        r == blend_pixel(dstv as int, srcv as int),
{
    let a: u32 = srcv / 0x100_0000;
    proof {
        vstd::arithmetic::div_mod::lemma_div_is_ordered(srcv as int, 0xFFFF_FFFF, 0x100_0000);
        vstd::arithmetic::div_mod::lemma_div_pos_is_pos(srcv as int, 0x100_0000);
        vstd::arithmetic::div_mod::lemma_small_mod(a as nat, 256);
    }
    let sr: u32 = (srcv / 0x1_0000) % 256;
    let sg: u32 = (srcv / 0x100) % 256;
    let sb: u32 = srcv % 256;
    let dr: u32 = (dstv / 0x1_0000) % 256;
    let dg: u32 = (dstv / 0x100) % 256;
    let db: u32 = dstv % 256;
    let r = blend_channel_exec(dr, sr, a);
    let g = blend_channel_exec(dg, sg, a);
    let b = blend_channel_exec(db, sb, a);
    r * 0x1_0000 + g * 0x100 + b
}

/// The number of minor-axis steps an error-accumulating rasterizer has
/// taken after `k` major-axis steps, for a slope of `min_d / maj`: the
/// error grows by `min_d / maj` per step and a step is taken each time
/// it reaches one half.
pub open spec fn line_minor(k: int, maj: int, min_d: int) -> int {
    (2 * min_d * k + maj) / (2 * maj)
}

/// Whether `(x, y)` lies on the rasterized line from `min` to `max`:
/// walking the dominant axis from the lower endpoint, the minor axis
/// trails behind by the accumulated-error step count.
pub open spec fn line_pixel_hit(min: V2i, max: V2i, x: int, y: int) -> bool {
    let dx = max.x - min.x;
    let dy = max.y - min.y;
    let adx = if dx >= 0 {
        dx
    } else {
        -dx
    };
    let ady = if dy >= 0 {
        dy
    } else {
        -dy
    };
    if adx > ady {
        let ax = if dx >= 0 {
            min.x as int
        } else {
            max.x as int
        };
        let ay = if dx >= 0 {
            min.y as int
        } else {
            max.y as int
        };
        let by = if dx >= 0 {
            max.y as int
        } else {
            min.y as int
        };
        let sy: int = if by >= ay {
            1
        } else {
            -1
        };
        &&& ax <= x < ax + adx
        &&& y == ay + sy * line_minor(x - ax, adx, ady)
    } else {
        let ay = if dy >= 0 {
            min.y as int
        } else {
            max.y as int
        };
        let ax = if dy >= 0 {
            min.x as int
        } else {
            max.x as int
        };
        let bx = if dy >= 0 {
            max.x as int
        } else {
            min.x as int
        };
        let sx: int = if bx >= ax {
            1
        } else {
            -1
        };
        &&& ay <= y < ay + ady
        &&& x == ax + sx * line_minor(y - ay, ady, adx)
    }
}

/// After one accumulation step the minor-step count is again the closed
/// form: it stays where the error has not reached one half, and
/// advances by one where it has.
proof fn lemma_line_minor_step(k: int, maj: int, min_d: int, s: int, err2: int)
    requires
        0 <= min_d <= maj,
        0 < maj,
        0 <= k,
        s == line_minor(k, maj, min_d),
        err2 == 2 * min_d * k - 2 * maj * s,
        -maj <= err2 < maj,
    ensures
        err2 + 2 * min_d < maj ==> line_minor(k + 1, maj, min_d) == s && 2 * min_d * (k + 1) - 2
            * maj * s == err2 + 2 * min_d,
        err2 + 2 * min_d >= maj ==> line_minor(k + 1, maj, min_d) == s + 1 && 2 * min_d * (k + 1)
            - 2 * maj * (s + 1) == err2 + 2 * min_d - 2 * maj,
{
    let e = err2 + 2 * min_d;
    assert(2 * min_d * (k + 1) == 2 * min_d * k + 2 * min_d) by (nonlinear_arith);
    if e < maj {
        assert(2 * min_d * (k + 1) + maj == s * (2 * maj) + (e + maj)) by (nonlinear_arith)
            requires
                2 * min_d * (k + 1) == 2 * min_d * k + 2 * min_d,
                err2 == 2 * min_d * k - 2 * maj * s,
                e == err2 + 2 * min_d,
        ;
        vstd::arithmetic::div_mod::lemma_fundamental_div_mod_converse(
            2 * min_d * (k + 1) + maj,
            2 * maj,
            s,
            e + maj,
        );
    } else {
        assert(2 * min_d * (k + 1) + maj == (s + 1) * (2 * maj) + (e - maj)) by (nonlinear_arith)
            requires
                2 * min_d * (k + 1) == 2 * min_d * k + 2 * min_d,
                err2 == 2 * min_d * k - 2 * maj * s,
                e == err2 + 2 * min_d,
        ;
        vstd::arithmetic::div_mod::lemma_fundamental_div_mod_converse(
            2 * min_d * (k + 1) + maj,
            2 * maj,
            s + 1,
            e - maj,
        );
    }
}

/// The rasterizer starts with no minor steps taken.
proof fn lemma_line_minor_zero(maj: int, min_d: int)
    requires
        0 < maj,
    ensures
        line_minor(0, maj, min_d) == 0,
{
    assert(2 * min_d * 0 == 0) by (nonlinear_arith);
    vstd::arithmetic::div_mod::lemma_fundamental_div_mod_converse(maj, 2 * maj, 0, maj);
}

/// Rasterizes a single-pixel line from `min` to `max` by stepping the
/// dominant axis one pixel at a time and accumulating fractional slope
/// error on the minor axis; pixels outside the buffer are skipped (no
/// other clipping).  The final endpoint is exclusive.  `_thickness` is
/// accepted for symmetry with `draw_rect` and ignored.
#[verifier::loop_isolation(false)]
pub fn draw_line(dst: &mut Bitmap, min: V2i, max: V2i, color: Color, _thickness: i32)
    requires
        old(dst).wf(),
        -0x4000_0000 < min.x < 0x4000_0000,
        -0x4000_0000 < min.y < 0x4000_0000,
        -0x4000_0000 < max.x < 0x4000_0000,
        -0x4000_0000 < max.y < 0x4000_0000,
    ensures
        final(dst).wf(),
        final(dst).same_dims(*old(dst)),
        forall|x: int, y: int|
            final(dst).in_bounds(x, y) ==> final(dst).pixel_at(x, y) == (if line_pixel_hit(
                min,
                max,
                x,
                y,
            ) {
                color_u32(color)
            } else {
                old(dst).pixel_at(x, y)
            }),
{
    let dx: i64 = max.x as i64 - min.x as i64;
    let dy: i64 = max.y as i64 - min.y as i64;
    let adx: i64 = if dx >= 0 {
        dx
    } else {
        -dx
    };
    let ady: i64 = if dy >= 0 {
        dy
    } else {
        -dy
    };
    let v = color.as_u32();
    let dw: i64 = dst.width() as i64;
    let dh: i64 = dst.height() as i64;
    if adx > ady {
        let ax: i64 = if dx >= 0 {
            min.x as i64
        } else {
            max.x as i64
        };
        let ay: i64 = if dx >= 0 {
            min.y as i64
        } else {
            max.y as i64
        };
        let by: i64 = if dx >= 0 {
            max.y as i64
        } else {
            min.y as i64
        };
        let ghost sy: int = if by >= ay {
            1int
        } else {
            -1int
        };
        let mut k: i64 = 0;
        let mut s: i64 = 0;
        let mut err2: i64 = 0;
        proof {
            lemma_line_minor_zero(adx as int, ady as int);
        }
        while k < adx
            invariant
                dst.wf(),
                dst.same_dims(*old(dst)),
                0 <= k <= adx,
                0 <= s <= k,
                s == line_minor(k as int, adx as int, ady as int),
                err2 == 2 * ady * k - 2 * adx * s,
                -adx <= err2 < adx,
                forall|px: int, py: int|
                    #![trigger dst.pixel_at(px, py)]
                    dst.in_bounds(px, py) ==> dst.pixel_at(px, py) == (if line_pixel_hit(
                        min,
                        max,
                        px,
                        py,
                    ) && px < ax + k {
                        v
                    } else {
                        old(dst).pixel_at(px, py)
                    }),
            decreases adx - k,
        {
            let x: i64 = ax + k;
            let y: i64 = if by >= ay {
                ay + s
            } else {
                ay - s
            };
            proof {
                assert(y == ay + sy * s) by (nonlinear_arith)
                    requires
                        sy == if by >= ay {
                            1int
                        } else {
                            -1int
                        },
                        y == if by >= ay {
                            ay + s
                        } else {
                            ay - s
                        },
                ;
                assert(line_pixel_hit(min, max, x as int, y as int));
            }
            if 0 <= x && x < dw && 0 <= y && y < dh {
                dst.set_pixel(x as i32, y as i32, v);
            }
            proof {
                lemma_line_minor_step(k as int, adx as int, ady as int, s as int, err2 as int);
            }
            err2 = err2 + 2 * ady;
            if err2 >= adx {
                s = s + 1;
                err2 = err2 - 2 * adx;
            }
            k = k + 1;
            proof {
                assert forall|px: int, py: int|
                    dst.in_bounds(px, py) && !(line_pixel_hit(min, max, px, py) && px < ax + k)
                        && line_pixel_hit(min, max, px, py) implies px != x as int by {}
            }
        }
    } else if ady > 0 {
        let ay: i64 = if dy >= 0 {
            min.y as i64
        } else {
            max.y as i64
        };
        let ax: i64 = if dy >= 0 {
            min.x as i64
        } else {
            max.x as i64
        };
        let bx: i64 = if dy >= 0 {
            max.x as i64
        } else {
            min.x as i64
        };
        let ghost sx: int = if bx >= ax {
            1int
        } else {
            -1int
        };
        let mut k: i64 = 0;
        let mut s: i64 = 0;
        let mut err2: i64 = 0;
        proof {
            lemma_line_minor_zero(ady as int, adx as int);
        }
        while k < ady
            invariant
                dst.wf(),
                dst.same_dims(*old(dst)),
                0 <= k <= ady,
                0 <= s <= k,
                s == line_minor(k as int, ady as int, adx as int),
                err2 == 2 * adx * k - 2 * ady * s,
                -ady <= err2 < ady,
                forall|px: int, py: int|
                    #![trigger dst.pixel_at(px, py)]
                    dst.in_bounds(px, py) ==> dst.pixel_at(px, py) == (if line_pixel_hit(
                        min,
                        max,
                        px,
                        py,
                    ) && py < ay + k {
                        v
                    } else {
                        old(dst).pixel_at(px, py)
                    }),
            decreases ady - k,
        {
            let y: i64 = ay + k;
            let x: i64 = if bx >= ax {
                ax + s
            } else {
                ax - s
            };
            proof {
                assert(x == ax + sx * s) by (nonlinear_arith)
                    requires
                        sx == if bx >= ax {
                            1int
                        } else {
                            -1int
                        },
                        x == if bx >= ax {
                            ax + s
                        } else {
                            ax - s
                        },
                ;
                assert(line_pixel_hit(min, max, x as int, y as int));
            }
            if 0 <= x && x < dw && 0 <= y && y < dh {
                dst.set_pixel(x as i32, y as i32, v);
            }
            proof {
                lemma_line_minor_step(k as int, ady as int, adx as int, s as int, err2 as int);
            }
            err2 = err2 + 2 * adx;
            if err2 >= ady {
                s = s + 1;
                err2 = err2 - 2 * ady;
            }
            k = k + 1;
        }
    }
}

/// Copies `src` into the top-left corner of `dst`, each source pixel
/// expanded to a `scale` by `scale` block; the rest of `dst` is kept.
pub fn scale_up(src: &Bitmap, dst: &mut Bitmap, scale: i32)
    requires
        src.wf(),
        old(dst).wf(),
        scale > 0,
        src.spec_width() * scale <= old(dst).spec_width(),
        src.spec_height() * scale <= old(dst).spec_height(),
    ensures
        final(dst).wf(),
        final(dst).same_dims(*old(dst)),
        forall|x: int, y: int|
            final(dst).in_bounds(x, y) ==> final(dst).pixel_at(x, y) == (if x < src.spec_width()
                * scale && y < src.spec_height() * scale {
                src.pixel_at(x / (scale as int), y / (scale as int))
            } else {
                old(dst).pixel_at(x, y)
            }),
{
    let sc: usize = scale as usize;
    proof {
        assert(src.spec_width() * scale >= scale && src.spec_height() * scale >= scale)
            by (nonlinear_arith)
            requires
                src.spec_width() >= 1,
                src.spec_height() >= 1,
                scale >= 1,
        ;
    }
    let ws: usize = (src.width() as usize) * sc;
    let hs: usize = (src.height() as usize) * sc;
    let mut y: usize = 0;
    while y < hs
        invariant
            dst.wf(),
            src.wf(),
            dst.same_dims(*old(dst)),
            1 <= sc == scale,
            ws == src.spec_width() * scale,
            hs == src.spec_height() * scale,
            ws <= dst.spec_width(),
            hs <= dst.spec_height(),
            0 <= y <= hs,
            forall|px: int, py: int|
                #![trigger dst.pixel_at(px, py)]
                dst.in_bounds(px, py) ==> dst.pixel_at(px, py) == (if px < ws && py < y {
                    src.pixel_at(px / (scale as int), py / (scale as int))
                } else {
                    old(dst).pixel_at(px, py)
                }),
        decreases hs - y,
    {
        let mut x: usize = 0;
        while x < ws
            invariant
                dst.wf(),
                src.wf(),
                dst.same_dims(*old(dst)),
                1 <= sc == scale,
                ws == src.spec_width() * scale,
                hs == src.spec_height() * scale,
                ws <= dst.spec_width(),
                hs <= dst.spec_height(),
                0 <= y < hs,
                0 <= x <= ws,
                forall|px: int, py: int|
                    #![trigger dst.pixel_at(px, py)]
                    dst.in_bounds(px, py) ==> dst.pixel_at(px, py) == (if px < ws && (py < y || (py
                        == y && px < x)) {
                        src.pixel_at(px / (scale as int), py / (scale as int))
                    } else {
                        old(dst).pixel_at(px, py)
                    }),
            decreases ws - x,
        {
            proof {
                lemma_scaled_index(x as int, src.spec_width(), scale as int);
                lemma_scaled_index(y as int, src.spec_height(), scale as int);
            }
            let sv = src.get_pixel((x / sc) as i32, (y / sc) as i32);
            dst.set_pixel(x as i32, y as i32, sv);
            x += 1;
        }
        y += 1;
    }
}

/// An index below `n * scale` divided by `scale` falls below `n`.
pub proof fn lemma_scaled_index(i: int, n: int, scale: int)
    requires
        0 <= i < n * scale,
        1 <= scale,
    ensures
        0 <= i / scale < n,
{
    vstd::arithmetic::div_mod::lemma_div_pos_is_pos(i, scale);
    assert(n * scale - 1 == (n - 1) * scale + (scale - 1)) by (nonlinear_arith);
    vstd::arithmetic::div_mod::lemma_div_is_ordered(i, n * scale - 1, scale);
    vstd::arithmetic::div_mod::lemma_fundamental_div_mod_converse(
        n * scale - 1,
        scale,
        n - 1,
        scale - 1,
    );
}

/// The alpha blit at its boundary values: a fully opaque source pixel
/// replaces the destination's color channels exactly, and a fully
/// transparent one leaves them unchanged (either way the destination's
/// alpha byte is zeroed).
pub proof fn lemma_blit_boundary(dstv: int, srcv: int)
    requires
        0 <= dstv < 0x1_0000_0000,
        0 <= srcv < 0x1_0000_0000,
    ensures
        alpha_of(srcv) == 255 ==> {
            &&& red_of(blend_pixel(dstv, srcv)) == red_of(srcv)
            &&& green_of(blend_pixel(dstv, srcv)) == green_of(srcv)
            &&& blue_of(blend_pixel(dstv, srcv)) == blue_of(srcv)
        },
        alpha_of(srcv) == 0 ==> {
            &&& red_of(blend_pixel(dstv, srcv)) == red_of(dstv)
            &&& green_of(blend_pixel(dstv, srcv)) == green_of(dstv)
            &&& blue_of(blend_pixel(dstv, srcv)) == blue_of(dstv)
        },
        alpha_of(srcv) == 255 || alpha_of(srcv) == 0 ==> alpha_of(blend_pixel(dstv, srcv)) == 0,
{
    let a = alpha_of(srcv);
    lemma_channel_range(dstv);
    lemma_channel_range(srcv);
    if a == 255 || a == 0 {
        lemma_blend_channel_boundary(red_of(dstv), red_of(srcv), a);
        lemma_blend_channel_boundary(green_of(dstv), green_of(srcv), a);
        lemma_blend_channel_boundary(blue_of(dstv), blue_of(srcv), a);
        crate::color::lemma_pack_unpack(
            0,
            blend_channel(red_of(dstv), red_of(srcv), a),
            blend_channel(green_of(dstv), green_of(srcv), a),
            blend_channel(blue_of(dstv), blue_of(srcv), a),
        );
    }
}

/// Every channel of a 32-bit packed color lies below 256.
proof fn lemma_channel_range(v: int)
    requires
        0 <= v < 0x1_0000_0000,
    ensures
        0 <= alpha_of(v) < 256,
        0 <= red_of(v) < 256,
        0 <= green_of(v) < 256,
        0 <= blue_of(v) < 256,
{
    vstd::arithmetic::div_mod::lemma_mod_bound(v / 0x100_0000, 256);
    vstd::arithmetic::div_mod::lemma_mod_bound(v / 0x1_0000, 256);
    vstd::arithmetic::div_mod::lemma_mod_bound(v / 0x100, 256);
    vstd::arithmetic::div_mod::lemma_mod_bound(v, 256);
    vstd::arithmetic::div_mod::lemma_div_pos_is_pos(v, 0x100_0000);
    vstd::arithmetic::div_mod::lemma_div_pos_is_pos(v, 0x1_0000);
    vstd::arithmetic::div_mod::lemma_div_pos_is_pos(v, 0x100);
}

/// The alpha lerp of one channel at the boundary alphas: alpha 255
/// yields the source channel, alpha 0 the destination channel.
proof fn lemma_blend_channel_boundary(d: int, s: int, a: int)
    requires
        0 <= d < 256,
        0 <= s < 256,
        a == 255 || a == 0,
    ensures
        a == 255 ==> blend_channel(d, s, a) == s,
        a == 0 ==> blend_channel(d, s, a) == d,
        0 <= blend_channel(d, s, a) < 256,
{
    if s >= d {
        lemma_scaled_fraction_bound(s - d, a);
        if a == 255 {
            vstd::arithmetic::div_mod::lemma_fundamental_div_mod_converse(
                (s - d) * 255,
                255,
                s - d,
                0,
            );
        } else {
            assert((s - d) * 0 == 0) by (nonlinear_arith);
            vstd::arithmetic::div_mod::lemma_div_of0(255);
        }
    } else {
        lemma_scaled_fraction_bound(d - s, a);
        if a == 255 {
            vstd::arithmetic::div_mod::lemma_fundamental_div_mod_converse(
                (d - s) * 255,
                255,
                d - s,
                0,
            );
        } else {
            assert((d - s) * 0 == 0) by (nonlinear_arith);
            vstd::arithmetic::div_mod::lemma_div_of0(255);
        }
    }
}

/// The region of `dst` covered by a source bitmap of `src` dimensions
/// placed at `p`.
pub open spec fn blit_region(p: V2i, src_w: int, src_h: int, x: int, y: int) -> bool {
    &&& p.x <= x < p.x + src_w
    &&& p.y <= y < p.y + src_h
}

/// Composites `src` onto `dst` at offset `p` with per-pixel alpha
/// blending, clipped to the destination.  Every covered destination
/// pixel becomes the blend of its old value with the corresponding
/// source pixel; all others keep their value.
pub fn draw_bmp(dst: &mut Bitmap, src: &Bitmap, p: V2i)
    requires
        old(dst).wf(),
        src.wf(),
    ensures
        final(dst).wf(),
        final(dst).same_dims(*old(dst)),
        forall|x: int, y: int|
            final(dst).in_bounds(x, y) ==> final(dst).pixel_at(x, y) == (if blit_region(
                p,
                src.spec_width(),
                src.spec_height(),
                x,
                y,
            ) {
                blend_pixel(old(dst).pixel_at(x, y) as int, src.pixel_at(x - p.x, y - p.y) as int)
            } else {
                old(dst).pixel_at(x, y) as int
            }),
{
    let px: i64 = p.x as i64;
    let py: i64 = p.y as i64;
    let x0: i64 = if px > 0 {
        px
    } else {
        0
    };
    let y0: i64 = if py > 0 {
        py
    } else {
        0
    };
    let dw: i64 = dst.width() as i64;
    let dh: i64 = dst.height() as i64;
    let x1: i64 = if px + (src.width() as i64) < dw {
        px + (src.width() as i64)
    } else {
        dw
    };
    let y1: i64 = if py + (src.height() as i64) < dh {
        py + (src.height() as i64)
    } else {
        dh
    };
    let mut y: i64 = y0;
    while y < y1
        invariant
            dst.wf(),
            src.wf(),
            dst.same_dims(*old(dst)),
            y0 <= y,
            y <= y1 || y == y0,
            0 <= y0,
            y1 <= dh,
            0 <= x0,
            x1 <= dw,
            px == p.x as int,
            py == p.y as int,
            x0 == if px > 0 {
                px as int
            } else {
                0
            },
            y0 == if py > 0 {
                py as int
            } else {
                0
            },
            x1 == if p.x + src.spec_width() < dw {
                p.x + src.spec_width()
            } else {
                dw as int
            },
            y1 == if p.y + src.spec_height() < dh {
                p.y + src.spec_height()
            } else {
                dh as int
            },
            dw == dst.spec_width(),
            dh == dst.spec_height(),
            forall|qx: int, qy: int|
                dst.in_bounds(qx, qy) ==> dst.pixel_at(qx, qy) == (if blit_region(
                    p,
                    src.spec_width(),
                    src.spec_height(),
                    qx,
                    qy,
                ) && qy < y {
                    blend_pixel(
                        old(dst).pixel_at(qx, qy) as int,
                        src.pixel_at(qx - p.x, qy - p.y) as int,
                    )
                } else {
                    old(dst).pixel_at(qx, qy) as int
                }),
        decreases y1 - y,
    {
        let mut x: i64 = x0;
        while x < x1
            invariant
                dst.wf(),
                src.wf(),
                dst.same_dims(*old(dst)),
                x0 <= x,
                x <= x1 || x == x0,
                y0 <= y < y1,
                0 <= y0,
                y1 <= dh,
                0 <= x0,
                x1 <= dw,
                px == p.x as int,
                py == p.y as int,
                x0 == if px > 0 {
                    px as int
                } else {
                    0
                },
                y0 == if py > 0 {
                    py as int
                } else {
                    0
                },
                x1 == if p.x + src.spec_width() < dw {
                    p.x + src.spec_width()
                } else {
                    dw as int
                },
                y1 == if p.y + src.spec_height() < dh {
                    p.y + src.spec_height()
                } else {
                    dh as int
                },
                dw == dst.spec_width(),
                dh == dst.spec_height(),
                forall|qx: int, qy: int|
                    dst.in_bounds(qx, qy) ==> dst.pixel_at(qx, qy) == (if blit_region(
                        p,
                        src.spec_width(),
                        src.spec_height(),
                        qx,
                        qy,
                    ) && (qy < y || (qy == y && qx < x)) {
                        blend_pixel(
                            old(dst).pixel_at(qx, qy) as int,
                            src.pixel_at(qx - p.x, qy - p.y) as int,
                        )
                    } else {
                        old(dst).pixel_at(qx, qy) as int
                    }),
            decreases x1 - x,
        {
            let dv = dst.get_pixel(x as i32, y as i32);
            let sv = src.get_pixel((x - px) as i32, (y - py) as i32);
            let bv = blend(dv, sv);
            dst.set_pixel(x as i32, y as i32, bv);
            x += 1;
        }
        y += 1;
    }
}

} // verus!
