//! Plane geometry: two-component vectors and axis-aligned boxes.

use vstd::prelude::*;
use crate::fx::{Fx, FX_MUL_LIM, fx_scale_down, fx_int};

verus! {

/// Scalar types a vector may hold: machine integers for pixel space,
/// fixed-point scalars for game space.
pub trait Num32: Sized + Copy {
}

impl Num32 for i32 {
}

impl Num32 for Fx {
}

/// A two-component vector.
#[derive(Copy, Clone, PartialEq, Eq, Debug)]
pub struct V2<T: Num32> {
    pub x: T,
    pub y: T,
}

/// A vector in screen space (pixels).
pub type V2i = V2<i32>;

/// A vector in game space (tile units).
pub type V2fx = V2<Fx>;

impl<T: Num32> V2<T> {
    pub fn new(x: T, y: T) -> (r: Self)
        ensures
            r.x == x,
            r.y == y,
    {
        V2 { x, y }
    }

    /// Both components set to the same value.
    pub fn diag(val: T) -> (r: Self)
        ensures
            r.x == val,
            r.y == val,
    {
        V2 { x: val, y: val }
    }

    /// Applies `f` to each component.
    pub fn map<F: Fn(T) -> T>(self, f: F) -> (r: Self)
        requires
            f.requires((self.x,)),
            f.requires((self.y,)),
        ensures
            f.ensures((self.x,), r.x),
            f.ensures((self.y,), r.y),
    {
        V2 { x: f(self.x), y: f(self.y) }
    }
}

impl V2<i32> {
    pub fn add(self, rhs: Self) -> (r: Self)
        requires
            i32::MIN <= self.x + rhs.x <= i32::MAX,
            i32::MIN <= self.y + rhs.y <= i32::MAX,
        ensures
            r.x == self.x + rhs.x,
            r.y == self.y + rhs.y,
    {
        V2 { x: self.x + rhs.x, y: self.y + rhs.y }
    }

    pub fn sub(self, rhs: Self) -> (r: Self)
        requires
            i32::MIN <= self.x - rhs.x <= i32::MAX,
            i32::MIN <= self.y - rhs.y <= i32::MAX,
        ensures
            r.x == self.x - rhs.x,
            r.y == self.y - rhs.y,
    {
        V2 { x: self.x - rhs.x, y: self.y - rhs.y }
    }
}

impl V2<Fx> {
    /// The game-space vector with whole-tile components.
    pub fn from_ints(x: i32, y: i32) -> (r: Self)
        ensures
            r.x.raw == fx_int(x as int),
            r.y.raw == fx_int(y as int),
    {
        V2 { x: Fx::from_int(x), y: Fx::from_int(y) }
    }

    pub fn zero() -> (r: Self)
        ensures
            r.x.raw == 0,
            r.y.raw == 0,
    {
        V2 { x: Fx::zero(), y: Fx::zero() }
    }

    pub fn add(self, rhs: Self) -> (r: Self)
        requires
            i64::MIN <= self.x.raw + rhs.x.raw <= i64::MAX,
            i64::MIN <= self.y.raw + rhs.y.raw <= i64::MAX,
        ensures
            r.x.raw == self.x.raw + rhs.x.raw,
            r.y.raw == self.y.raw + rhs.y.raw,
    {
        V2 { x: self.x.add(rhs.x), y: self.y.add(rhs.y) }
    }

    pub fn sub(self, rhs: Self) -> (r: Self)
        requires
            i64::MIN <= self.x.raw - rhs.x.raw <= i64::MAX,
            i64::MIN <= self.y.raw - rhs.y.raw <= i64::MAX,
        ensures
            r.x.raw == self.x.raw - rhs.x.raw,
            r.y.raw == self.y.raw - rhs.y.raw,
    {
        V2 { x: self.x.sub(rhs.x), y: self.y.sub(rhs.y) }
    }

    pub fn neg(self) -> (r: Self)
        requires
            self.x.raw != i64::MIN,
            self.y.raw != i64::MIN,
        ensures
            r.x.raw == -self.x.raw,
            r.y.raw == -self.y.raw,
    {
        V2 { x: self.x.neg(), y: self.y.neg() }
    }

    /// Componentwise product with a scalar.
    pub fn scale(self, k: Fx) -> (r: Self)
        requires
            -FX_MUL_LIM < self.x.raw < FX_MUL_LIM,
            -FX_MUL_LIM < self.y.raw < FX_MUL_LIM,
            -FX_MUL_LIM < k.raw < FX_MUL_LIM,
        ensures
            r.x.raw == fx_scale_down(self.x.raw * k.raw),
            r.y.raw == fx_scale_down(self.y.raw * k.raw),
    {
        V2 { x: self.x.mul(k), y: self.y.mul(k) }
    }

    /// Both components rounded down to whole tile units.
    pub fn floor(self) -> (r: Self)
        requires
            fx_int(i32::MIN as int) <= self.x.raw <= fx_int(i32::MAX as int),
            fx_int(i32::MIN as int) <= self.y.raw <= fx_int(i32::MAX as int),
        ensures
            r.x.raw == fx_int(fx_scale_down(self.x.raw as int)),
            r.y.raw == fx_int(fx_scale_down(self.y.raw as int)),
    {
        V2 { x: self.x.floor(), y: self.y.floor() }
    }

    /// Both components rounded to the nearest whole tile, halves up.
    pub fn round(self) -> (r: Self)
        requires
            fx_int(i32::MIN as int) <= self.x.raw + 32768 <= fx_int(i32::MAX as int),
            fx_int(i32::MIN as int) <= self.y.raw + 32768 <= fx_int(i32::MAX as int),
        ensures
            r.x.raw == fx_int(fx_scale_down(self.x.raw + 32768)),
            r.y.raw == fx_int(fx_scale_down(self.y.raw + 32768)),
    {
        V2 { x: self.x.round(), y: self.y.round() }
    }

    /// Both components truncated toward zero to whole tiles.
    pub fn trunc(self) -> (r: Self)
        requires
            -fx_int(i32::MAX as int) <= self.x.raw <= fx_int(i32::MAX as int),
            -fx_int(i32::MAX as int) <= self.y.raw <= fx_int(i32::MAX as int),
        ensures
            r.x.raw == fx_int(
                if self.x.raw >= 0 {
                    fx_scale_down(self.x.raw as int)
                } else {
                    -fx_scale_down(-self.x.raw as int)
                },
            ),
            r.y.raw == fx_int(
                if self.y.raw >= 0 {
                    fx_scale_down(self.y.raw as int)
                } else {
                    -fx_scale_down(-self.y.raw as int)
                },
            ),
    {
        V2 { x: self.x.trunc(), y: self.y.trunc() }
    }

    /// Both components rounded up to whole tiles.
    pub fn ceil(self) -> (r: Self)
        requires
            -fx_int(i32::MAX as int) <= self.x.raw <= fx_int(i32::MAX as int),
            -fx_int(i32::MAX as int) <= self.y.raw <= fx_int(i32::MAX as int),
        ensures
            r.x.raw == fx_int(-fx_scale_down(-self.x.raw as int)),
            r.y.raw == fx_int(-fx_scale_down(-self.y.raw as int)),
    {
        V2 { x: self.x.ceil(), y: self.y.ceil() }
    }

    /// Both components rounded down, as whole tile indices.
    pub fn floor_v2i(self) -> (r: V2<i32>)
        requires
            fx_int(i32::MIN as int) <= self.x.raw <= fx_int(i32::MAX as int),
            fx_int(i32::MIN as int) <= self.y.raw <= fx_int(i32::MAX as int),
        ensures
            r.x as int == fx_scale_down(self.x.raw as int),
            r.y as int == fx_scale_down(self.y.raw as int),
    {
        V2 { x: self.x.floor_i32(), y: self.y.floor_i32() }
    }

    /// Both components rounded to the nearest whole tile, halves up.
    pub fn round_v2i(self) -> (r: V2<i32>)
        requires
            fx_int(i32::MIN as int) <= self.x.raw + 32768 <= fx_int(i32::MAX as int),
            fx_int(i32::MIN as int) <= self.y.raw + 32768 <= fx_int(i32::MAX as int),
        ensures
            r.x as int == fx_scale_down(self.x.raw + 32768),
            r.y as int == fx_scale_down(self.y.raw + 32768),
    {
        V2 { x: self.x.round_i32(), y: self.y.round_i32() }
    }
}

/// Dot product of two game-space vectors.
pub fn dot(lhs: V2<Fx>, rhs: V2<Fx>) -> (r: Fx)
    requires
        -FX_MUL_LIM < lhs.x.raw < FX_MUL_LIM,
        -FX_MUL_LIM < lhs.y.raw < FX_MUL_LIM,
        -FX_MUL_LIM < rhs.x.raw < FX_MUL_LIM,
        -FX_MUL_LIM < rhs.y.raw < FX_MUL_LIM,
    ensures
        r.raw == fx_scale_down(lhs.x.raw * rhs.x.raw) + fx_scale_down(lhs.y.raw * rhs.y.raw),
{
    let px = lhs.x.mul(rhs.x);
    let py = lhs.y.mul(rhs.y);
    proof {
        lemma_fx_product_range(lhs.x.raw as int, rhs.x.raw as int);
        lemma_fx_product_range(lhs.y.raw as int, rhs.y.raw as int);
    }
    px.add(py)
}

/// Squared distance between two game-space points.
pub fn distance_sq(lhs: V2<Fx>, rhs: V2<Fx>) -> (r: Fx)
    requires
        i64::MIN < lhs.x.raw - rhs.x.raw < FX_MUL_LIM,
        i64::MIN < lhs.y.raw - rhs.y.raw < FX_MUL_LIM,
        -FX_MUL_LIM < lhs.x.raw - rhs.x.raw,
        -FX_MUL_LIM < lhs.y.raw - rhs.y.raw,
    ensures
        r.raw == fx_scale_down((rhs.x.raw - lhs.x.raw) * (rhs.x.raw - lhs.x.raw)) + fx_scale_down(
            (rhs.y.raw - lhs.y.raw) * (rhs.y.raw - lhs.y.raw),
        ),
{
    let d = rhs.sub(lhs);
    dot(d, d)
}

/// A scaled-down product of bounded factors stays well within i64 range.
proof fn lemma_fx_product_range(a: int, b: int)
    requires
        -FX_MUL_LIM < a < FX_MUL_LIM,
        -FX_MUL_LIM < b < FX_MUL_LIM,
    ensures
        -0x4000_0000_0000 <= fx_scale_down(a * b) <= 0x4000_0000_0000,
{
    assert(-0x4000_0000_0000_0000 < a * b < 0x4000_0000_0000_0000) by (nonlinear_arith)
        requires
            -0x8000_0000 < a < 0x8000_0000,
            -0x8000_0000 < b < 0x8000_0000,
    ;
    vstd::arithmetic::div_mod::lemma_div_is_ordered(a * b, 0x4000_0000_0000_0000, 65536);
    vstd::arithmetic::div_mod::lemma_div_is_ordered(-0x4000_0000_0000_0000, a * b, 65536);
}

/// An axis-aligned box, `min` at the bottom left, `max` at the top right
/// in game space (top left / bottom right in screen space).
#[derive(Copy, Clone, PartialEq, Eq, Debug)]
pub struct AABB<T: Num32> {
    pub min: V2<T>,
    pub max: V2<T>,
}

impl<T: Num32> AABB<T> {
    pub fn right(self) -> (r: T)
        ensures
            r == self.max.x,
    {
        self.max.x
    }

    pub fn left(self) -> (r: T)
        ensures
            r == self.min.x,
    {
        self.min.x
    }

    pub fn top(self) -> (r: T)
        ensures
            r == self.max.y,
    {
        self.max.y
    }

    pub fn bottom(self) -> (r: T)
        ensures
            r == self.min.y,
    {
        self.min.y
    }

    pub fn top_left(self) -> (r: V2<T>)
        ensures
            r.x == self.min.x,
            r.y == self.max.y,
    {
        V2 { x: self.min.x, y: self.max.y }
    }

    pub fn top_right(self) -> (r: V2<T>)
        ensures
            r == self.max,
    {
        self.max
    }

    pub fn bottom_left(self) -> (r: V2<T>)
        ensures
            r == self.min,
    {
        self.min
    }

    pub fn bottom_right(self) -> (r: V2<T>)
        ensures
            r.x == self.max.x,
            r.y == self.min.y,
    {
        V2 { x: self.max.x, y: self.min.y }
    }
}

impl AABB<Fx> {
    /// The box shifted by `by`.
    pub fn translate(self, by: V2<Fx>) -> (r: Self)
        requires
            i64::MIN <= self.min.x.raw + by.x.raw <= i64::MAX,
            i64::MIN <= self.min.y.raw + by.y.raw <= i64::MAX,
            i64::MIN <= self.max.x.raw + by.x.raw <= i64::MAX,
            i64::MIN <= self.max.y.raw + by.y.raw <= i64::MAX,
        ensures
            r.min.x.raw == self.min.x.raw + by.x.raw,
            r.min.y.raw == self.min.y.raw + by.y.raw,
            r.max.x.raw == self.max.x.raw + by.x.raw,
            r.max.y.raw == self.max.y.raw + by.y.raw,
    {
        AABB { min: self.min.add(by), max: self.max.add(by) }
    }
}

/// Whether two boxes overlap on both axes (touching edges do not count
/// as overlap).
pub open spec fn aabb_overlaps(rect0: AABB<Fx>, rect1: AABB<Fx>) -> bool {
    &&& rect0.max.x.raw > rect1.min.x.raw
    &&& rect0.min.x.raw < rect1.max.x.raw
    &&& rect0.max.y.raw > rect1.min.y.raw
    &&& rect0.min.y.raw < rect1.max.y.raw
}

/// Standard AABB overlap test: the boxes collide exactly when every
/// separating-axis inequality fails.
pub fn aabb_collision(rect0: AABB<Fx>, rect1: AABB<Fx>) -> (r: bool)
    ensures
        r == aabb_overlaps(rect0, rect1),
{
    rect0.max.x.raw > rect1.min.x.raw && rect0.min.x.raw < rect1.max.x.raw
        && rect0.max.y.raw > rect1.min.y.raw && rect0.min.y.raw < rect1.max.y.raw
}

} // verus!
