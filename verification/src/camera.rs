//! The camera transform: the mapping between game space (tile units,
//! Y up) and screen space (pixels, Y down), and the camera-follow rule.

use vstd::prelude::*;
use crate::fx::{Fx, FX_ONE, fx_scale_down, fx_int, fx_clamp, FX_MUL_LIM, lemma_div_scale_bound};
use crate::geom::{V2, V2i, V2fx, AABB, Num32};
use crate::entity::POS_WF_RAW;

verus! {

/// Bound on the coefficients of a camera matrix (plus or minus 4096
/// screen units per game unit).
pub const MAT_LIM_RAW: i64 = 0x1000_0000;

/// A 2 by 2 matrix as two columns: the image of a vector is
/// `col0 * v.x + col1 * v.y`.
#[derive(Copy, Clone, PartialEq, Eq, Debug)]
pub struct Mat2<T: Num32> {
    pub col0: V2<T>,
    pub col1: V2<T>,
}

/// The x component of `m` applied to `(vx, vy)`, over raw values.
pub open spec fn spec_apply_x(m: Mat2<Fx>, vx: int, vy: int) -> int {
    fx_scale_down(m.col0.x.raw * vx) + fx_scale_down(m.col1.x.raw * vy)
}

/// The y component of `m` applied to `(vx, vy)`, over raw values.
pub open spec fn spec_apply_y(m: Mat2<Fx>, vx: int, vy: int) -> int {
    fx_scale_down(m.col0.y.raw * vx) + fx_scale_down(m.col1.y.raw * vy)
}

/// A camera matrix has bounded coefficients.
pub open spec fn mat_wf(m: Mat2<Fx>) -> bool {
    &&& -MAT_LIM_RAW < m.col0.x.raw < MAT_LIM_RAW
    &&& -MAT_LIM_RAW < m.col0.y.raw < MAT_LIM_RAW
    &&& -MAT_LIM_RAW < m.col1.x.raw < MAT_LIM_RAW
    &&& -MAT_LIM_RAW < m.col1.y.raw < MAT_LIM_RAW
}

impl Mat2<Fx> {
    pub fn new(col0: V2fx, col1: V2fx) -> (m: Self)
        ensures
            m.col0 == col0,
            m.col1 == col1,
    {
        Mat2 { col0, col1 }
    }

    /// The diagonal matrix with entries `a` and `d`.
    pub fn diagonal(a: Fx, d: Fx) -> (m: Self)
        ensures
            m.col0 == (V2::<Fx> { x: a, y: Fx { raw: 0 } }),
            m.col1 == (V2::<Fx> { x: Fx { raw: 0 }, y: d }),
    {
        Mat2 { col0: V2 { x: a, y: Fx::zero() }, col1: V2 { x: Fx::zero(), y: d } }
    }

    /// The matrix applied to a game-space vector.
    pub fn apply(&self, v: V2fx) -> (r: V2fx)
        requires
            mat_wf(*self),
            -FX_MUL_LIM < v.x.raw < FX_MUL_LIM,
            -FX_MUL_LIM < v.y.raw < FX_MUL_LIM,
        ensures
            r.x.raw == spec_apply_x(*self, v.x.raw as int, v.y.raw as int),
            r.y.raw == spec_apply_y(*self, v.x.raw as int, v.y.raw as int),
            -0x1000_0000_0000 <= r.x.raw <= 0x1000_0000_0000,
            -0x1000_0000_0000 <= r.y.raw <= 0x1000_0000_0000,
    {
        let ax = self.col0.x.mul(v.x);
        let ay = self.col0.y.mul(v.x);
        let bx = self.col1.x.mul(v.y);
        let by = self.col1.y.mul(v.y);
        proof {
            lemma_mat_term_bound(self.col0.x.raw as int, v.x.raw as int);
            lemma_mat_term_bound(self.col0.y.raw as int, v.x.raw as int);
            lemma_mat_term_bound(self.col1.x.raw as int, v.y.raw as int);
            lemma_mat_term_bound(self.col1.y.raw as int, v.y.raw as int);
        }
        V2 { x: ax.add(bx), y: ay.add(by) }
    }
}

/// A scaled-down product of two factors below 2^31 stays below 2^46.
proof fn lemma_mat_term_bound(a: int, b: int)
    requires
        -0x1000_0000 < a < 0x1000_0000,
        -0x8000_0000 < b < 0x8000_0000,
    ensures
        -0x800_0000_0000 <= fx_scale_down(a * b) <= 0x800_0000_0000,
{
    assert(-(0x800_0000_0000 * 65536) <= a * b <= 0x800_0000_0000 * 65536) by (nonlinear_arith)
        requires
            -0x1000_0000 < a < 0x1000_0000,
            -0x8000_0000 < b < 0x8000_0000,
    ;
    lemma_div_scale_bound(a * b, 0x800_0000_0000, 65536);
}

/// What the renderer needs to know about the screen: the draw buffer's
/// size in pixels, the integer upscale factor to the window, the two
/// matrices between game and screen space, and the camera origin (the
/// bottom-left corner of the viewport, in game units).
pub struct ScreenInfo {
    pub width: i32,
    pub height: i32,
    pub scale: i32,
    pub game_to_screen_matrix: Mat2<Fx>,
    pub screen_to_game_matrix: Mat2<Fx>,
    pub camera: V2fx,
}

/// A usable screen description: positive dimensions and scale, bounded
/// matrices, camera on the playfield.
pub open spec fn screen_info_wf(s: ScreenInfo) -> bool {
    &&& 1 <= s.width <= 0x8000
    &&& 1 <= s.height <= 0x8000
    &&& 1 <= s.scale <= 0x100
    &&& mat_wf(s.game_to_screen_matrix)
    &&& mat_wf(s.screen_to_game_matrix)
    &&& -POS_WF_RAW <= s.camera.x.raw <= POS_WF_RAW
    &&& -POS_WF_RAW <= s.camera.y.raw <= POS_WF_RAW
}

/// The screen pixel of a game-space point: the camera-relative position
/// through the game-to-screen matrix, shifted down by the buffer height
/// (the matrix's Y flip lands points in negative rows), rounded to the
/// nearest pixel.
pub open spec fn spec_v2_to_screen(v: V2fx, s: ScreenInfo) -> (int, int) {
    let rx = v.x.raw - s.camera.x.raw;
    let ry = v.y.raw - s.camera.y.raw;
    let mx = spec_apply_x(s.game_to_screen_matrix, rx, ry);
    let my = spec_apply_y(s.game_to_screen_matrix, rx, ry) + fx_int(s.height as int);
    (fx_scale_down(mx + 32768), fx_scale_down(my + 32768))
}

/// Maps a game-space point to its screen pixel.
pub fn v2_to_screen(v: V2fx, s: &ScreenInfo) -> (r: V2i)
    requires
        screen_info_wf(*s),
        -0x2300_0000 <= v.x.raw <= 0x2300_0000,
        -0x2300_0000 <= v.y.raw <= 0x2300_0000,
    ensures
        r.x as int == spec_v2_to_screen(v, *s).0,
        r.y as int == spec_v2_to_screen(v, *s).1,
        -0x2000_0000 <= r.x <= 0x2000_0000,
        -0x2000_0000 <= r.y <= 0x2000_0000,
{
    let rel = v.sub(s.camera);
    let m = s.game_to_screen_matrix.apply(rel);
    let shifted = V2 { x: m.x, y: m.y.add(Fx::from_int(s.height)) };
    proof {
        lemma_div_scale_bound(shifted.x.raw + 32768, 0x2000_0000, 65536);
        lemma_div_scale_bound(shifted.y.raw + 32768, 0x2000_0000, 65536);
    }
    shifted.round_v2i()
}

/// The screen rectangle of a game-space box: both corners mapped, the
/// vertical extremes swapped because the Y axis flips.
pub fn aabb_to_screen(rect: AABB<Fx>, s: &ScreenInfo) -> (r: AABB<i32>)
    requires
        screen_info_wf(*s),
        -0x2300_0000 <= rect.min.x.raw <= 0x2300_0000,
        -0x2300_0000 <= rect.min.y.raw <= 0x2300_0000,
        -0x2300_0000 <= rect.max.x.raw <= 0x2300_0000,
        -0x2300_0000 <= rect.max.y.raw <= 0x2300_0000,
    ensures
        r.min.x as int == spec_v2_to_screen(rect.min, *s).0,
        r.min.y as int == spec_v2_to_screen(rect.max, *s).1,
        r.max.x as int == spec_v2_to_screen(rect.max, *s).0,
        r.max.y as int == spec_v2_to_screen(rect.min, *s).1,
        -0x2000_0000 <= r.min.x <= 0x2000_0000,
        -0x2000_0000 <= r.min.y <= 0x2000_0000,
        -0x2000_0000 <= r.max.x <= 0x2000_0000,
        -0x2000_0000 <= r.max.y <= 0x2000_0000,
{
    let lo = v2_to_screen(rect.min, s);
    let hi = v2_to_screen(rect.max, s);
    AABB { min: V2 { x: lo.x, y: hi.y }, max: V2 { x: hi.x, y: lo.y } }
}

/// The camera origin that keeps the player centered, clamped to the
/// level: each axis is held within `[0, level extent - viewport
/// extent]`, the lower bound winning where the level is smaller than
/// the viewport.
pub open spec fn spec_camera_follow(
    player_pos: V2fx,
    screen_w: int,
    screen_h: int,
    map_w: int,
    map_h: int,
) -> (int, int) {
    let cx = player_pos.x.raw - screen_w / 2;
    let cy = player_pos.y.raw - screen_h / 2;
    (fx_clamp(cx, 0, fx_int(map_w) - screen_w), fx_clamp(cy, 0, fx_int(map_h) - screen_h))
}

/// Positions the camera for the player, clamped to the level.
pub fn camera_follow(player_pos: V2fx, screen_w: Fx, screen_h: Fx, map_w: i32, map_h: i32) -> (r:
    V2fx)
    requires
        -POS_WF_RAW <= player_pos.x.raw <= POS_WF_RAW,
        -POS_WF_RAW <= player_pos.y.raw <= POS_WF_RAW,
        0 <= screen_w.raw <= POS_WF_RAW,
        0 <= screen_h.raw <= POS_WF_RAW,
        0 <= map_w <= 0x2000,
        0 <= map_h <= 0x2000,
    ensures
        r.x.raw == spec_camera_follow(
            player_pos,
            screen_w.raw as int,
            screen_h.raw as int,
            map_w as int,
            map_h as int,
        ).0,
        r.y.raw == spec_camera_follow(
            player_pos,
            screen_w.raw as int,
            screen_h.raw as int,
            map_w as int,
            map_h as int,
        ).1,
        -POS_WF_RAW <= r.x.raw <= POS_WF_RAW,
        -POS_WF_RAW <= r.y.raw <= POS_WF_RAW,
{
    let cx = player_pos.x.sub(screen_w.half());
    let cy = player_pos.y.sub(screen_h.half());
    proof {
        lemma_div_scale_bound(screen_w.raw as int, POS_WF_RAW as int, 2);
        lemma_div_scale_bound(screen_h.raw as int, POS_WF_RAW as int, 2);
    }
    let x = seq_clamp(cx, Fx::zero(), Fx::from_int(map_w).sub(screen_w));
    let y = seq_clamp(cy, Fx::zero(), Fx::from_int(map_h).sub(screen_h));
    V2 { x, y }
}

/// Clamps by checking the lower bound first, so an inverted range
/// yields its lower bound (as when a level is smaller than the screen).
pub fn seq_clamp(v: Fx, lo: Fx, hi: Fx) -> (r: Fx)
    ensures
        r.raw == fx_clamp(v.raw as int, lo.raw as int, hi.raw as int),
{
    if v.raw < lo.raw {
        lo
    } else if v.raw > hi.raw {
        hi
    } else {
        v
    }
}

/// The game-space point under a screen pixel, for a plain tile-size
/// camera (no matrix): `tile_size` pixels per tile, screen rows counted
/// downward from `screen.y`.
pub fn screen_pos_to_tilemap_pos(screen_pos: V2i, camera: V2fx, screen: V2i, tile_size: i32) -> (r:
    V2fx)
    requires
        0 < tile_size <= 0x10000,
        -POS_WF_RAW <= camera.x.raw <= POS_WF_RAW,
        -POS_WF_RAW <= camera.y.raw <= POS_WF_RAW,
    ensures
        r.x.raw == fx_int(screen_pos.x as int) / (tile_size as int) + camera.x.raw,
        r.y.raw == fx_int(screen.y - screen_pos.y) / (tile_size as int) + camera.y.raw,
{
    let x = Fx::from_int(screen_pos.x).div_int(tile_size as i64);
    let dy: i64 = (screen.y as i64) - (screen_pos.y as i64);
    let y = Fx::from_raw(dy * FX_ONE).div_int(tile_size as i64);
    proof {
        assert(0x2_0000_0000_0000 <= 0x2_0000_0000_0000 * (tile_size as int)) by (nonlinear_arith)
            requires
                tile_size >= 1,
        ;
        lemma_div_scale_bound(fx_int(screen_pos.x as int), 0x2_0000_0000_0000, tile_size as int);
        lemma_div_scale_bound(fx_int(dy as int), 0x2_0000_0000_0000, tile_size as int);
    }
    V2 { x: x.add(camera.x), y: y.add(camera.y) }
}

/// The screen pixel of a game-space point, for a plain tile-size
/// camera: camera-relative position times the tile size, truncated,
/// rows counted downward from `screen.y`.
pub fn tilemap_pos_to_screen_pos(tilemap_pos: V2fx, camera: V2fx, screen: V2i, tile_size: i32) -> (r:
    V2i)
    requires
        0 < tile_size <= 0x10000,
        -0x1000_0000 <= screen.y <= 0x1000_0000,
        -POS_WF_RAW <= camera.x.raw <= POS_WF_RAW,
        -POS_WF_RAW <= camera.y.raw <= POS_WF_RAW,
        -POS_WF_RAW <= tilemap_pos.x.raw <= POS_WF_RAW,
        -POS_WF_RAW <= tilemap_pos.y.raw <= POS_WF_RAW,
        -0x4000_0000_0000 <= (tilemap_pos.x.raw - camera.x.raw) * tile_size <= 0x4000_0000_0000,
        -0x4000_0000_0000 <= (tilemap_pos.y.raw - camera.y.raw) * tile_size <= 0x4000_0000_0000,
    ensures
        r.x as int == fx_trunc_units((tilemap_pos.x.raw - camera.x.raw) * tile_size),
        r.y as int == screen.y - fx_trunc_units((tilemap_pos.y.raw - camera.y.raw) * tile_size),
{
    let rx: i64 = (tilemap_pos.x.raw - camera.x.raw) * (tile_size as i64);
    let ry: i64 = (tilemap_pos.y.raw - camera.y.raw) * (tile_size as i64);
    let x = trunc_units(rx);
    let y = trunc_units(ry);
    V2 { x: x as i32, y: ((screen.y as i64) - y) as i32 }
}

/// The whole-unit part of a raw value, rounded toward zero.
pub open spec fn fx_trunc_units(raw: int) -> int {
    if raw >= 0 {
        raw / (FX_ONE as int)
    } else {
        -((-raw) / (FX_ONE as int))
    }
}

/// Truncates a raw subunit count to whole units, toward zero.
pub fn trunc_units(raw: i64) -> (r: i64)
    requires
        -0x4000_0000_0000 <= raw <= 0x4000_0000_0000,
    ensures
        r == fx_trunc_units(raw as int),
        -0x4000_0000 <= r <= 0x4000_0000,
{
    proof {
        lemma_div_scale_bound(
            if raw >= 0 {
                raw as int
            } else {
                -(raw as int)
            },
            0x4000_0000,
            FX_ONE as int,
        );
        vstd::arithmetic::div_mod::lemma_div_pos_is_pos(
            if raw >= 0 {
                raw as int
            } else {
                -(raw as int)
            },
            FX_ONE as int,
        );
    }
    if raw >= 0 {
        (raw as u64 / (FX_ONE as u64)) as i64
    } else {
        -(((-raw) as u64 / (FX_ONE as u64)) as i64)
    }
}

} // verus!
