//! Fixed-point scalars for game-space coordinates.
//!
//! A `Fx` stores a game-space quantity (tile units) as a signed 64-bit
//! count of 1/65536 subunits.  All arithmetic is exact integer
//! arithmetic; rounding of products is always toward negative infinity,
//! so every operation has a closed-form contract over `int`.

use vstd::prelude::*;

verus! {

/// Number of subunits per tile unit.
pub const FX_ONE: i64 = 65536;

/// Magnitude bound under which fixed-point products cannot overflow.
pub const FX_MUL_LIM: i64 = 0x8000_0000;

/// A game-space scalar in units of 1/65536 tile.
#[derive(Copy, Clone, PartialEq, Eq, Structural, Debug)]
pub struct Fx {
    pub raw: i64,
}

/// Floor division of a raw value by the scale: the integer part of the
/// quantity in tile units (`int` division by a positive divisor rounds
/// toward negative infinity).
pub open spec fn fx_scale_down(p: int) -> int {
    p / (FX_ONE as int)
}

/// The raw value that represents `i` whole tiles.
pub open spec fn fx_int(i: int) -> int {
    i * (FX_ONE as int)
}

/// The clamp of `v` into `[lo, hi]`.
pub open spec fn fx_clamp(v: int, lo: int, hi: int) -> int {
    if v < lo {
        lo
    } else if v > hi {
        hi
    } else {
        v
    }
}

impl Fx {
    /// The scalar holding exactly `i` whole tile units.
    pub fn from_int(i: i32) -> (r: Fx)
        ensures
            r.raw == fx_int(i as int),
    {
        Fx { raw: (i as i64) * FX_ONE }
    }

    /// The scalar holding `raw` subunits.
    pub fn from_raw(raw: i64) -> (r: Fx)
        ensures
            r.raw == raw,
    {
        Fx { raw }
    }

    pub fn zero() -> (r: Fx)
        ensures
            r.raw == 0,
    {
        Fx { raw: 0 }
    }

    pub fn add(self, rhs: Fx) -> (r: Fx)
        requires
            i64::MIN <= self.raw + rhs.raw <= i64::MAX,
        ensures
            r.raw == self.raw + rhs.raw,
    {
        Fx { raw: self.raw + rhs.raw }
    }

    pub fn sub(self, rhs: Fx) -> (r: Fx)
        requires
            i64::MIN <= self.raw - rhs.raw <= i64::MAX,
        ensures
            r.raw == self.raw - rhs.raw,
    {
        Fx { raw: self.raw - rhs.raw }
    }

    pub fn neg(self) -> (r: Fx)
        requires
            self.raw != i64::MIN,
        ensures
            r.raw == -self.raw,
    {
        Fx { raw: -self.raw }
    }

    /// Fixed-point product, rounded toward negative infinity.
    pub fn mul(self, rhs: Fx) -> (r: Fx)
        requires
            -FX_MUL_LIM < self.raw < FX_MUL_LIM,
            -FX_MUL_LIM < rhs.raw < FX_MUL_LIM,
        ensures
            r.raw == fx_scale_down(self.raw * rhs.raw),
    {
        proof {
            assert(-0x4000_0000_0000_0000 < self.raw * rhs.raw < 0x4000_0000_0000_0000)
                by (nonlinear_arith)
                requires
                    -0x8000_0000 < self.raw < 0x8000_0000,
                    -0x8000_0000 < rhs.raw < 0x8000_0000,
            ;
        }
        let p: i64 = self.raw * rhs.raw;
        floor_div_scale(p)
    }

    /// Product with an integer factor (exact).
    pub fn mul_int(self, k: i64) -> (r: Fx)
        requires
            i64::MIN <= self.raw * k <= i64::MAX,
        ensures
            r.raw == self.raw * k,
    {
        Fx { raw: self.raw * k }
    }

    /// The scalar divided by a positive integer, rounded toward
    /// negative infinity.
    pub fn div_int(self, d: i64) -> (r: Fx)
        requires
            0 < d <= 0x1_0000_0000,
        ensures
            r.raw == self.raw as int / d as int,
    {
        floor_div_by(self.raw, d as u64)
    }

    /// Half of the scalar, rounded toward negative infinity.
    pub fn half(self) -> (r: Fx)
        ensures
            r.raw == self.raw / 2,
    {
        floor_div_by(self.raw, 2)
    }

    /// Largest whole tile count at or below the scalar.
    pub fn floor_i32(self) -> (r: i32)
        requires
            fx_int(i32::MIN as int) <= self.raw <= fx_int(i32::MAX as int),
        ensures
            r as int == fx_scale_down(self.raw as int),
    {
        proof {
            lemma_scale_down_ordered(fx_int(i32::MIN as int), self.raw as int);
            lemma_scale_down_ordered(self.raw as int, fx_int(i32::MAX as int));
            lemma_scale_down_exact(i32::MIN as int);
            lemma_scale_down_exact(i32::MAX as int);
        }
        let q = floor_div_scale(self.raw);
        q.raw as i32
    }

    /// Nearest whole tile count, rounding halves up.
    pub fn round_i32(self) -> (r: i32)
        requires
            fx_int(i32::MIN as int) <= self.raw + 32768 <= fx_int(i32::MAX as int),
        ensures
            r as int == fx_scale_down(self.raw + 32768),
    {
        proof {
            lemma_scale_down_ordered(fx_int(i32::MIN as int), self.raw + 32768);
            lemma_scale_down_ordered(self.raw + 32768, fx_int(i32::MAX as int));
            lemma_scale_down_exact(i32::MIN as int);
            lemma_scale_down_exact(i32::MAX as int);
        }
        let q = floor_div_scale(self.raw + 32768);
        q.raw as i32
    }

    /// The scalar with any fractional part removed downward.
    pub fn floor(self) -> (r: Fx)
        requires
            fx_int(i32::MIN as int) <= self.raw <= fx_int(i32::MAX as int),
        ensures
            r.raw == fx_int(fx_scale_down(self.raw as int)),
    {
        let q = self.floor_i32();
        Fx::from_int(q)
    }

    /// The scalar rounded to the nearest whole tile, halves up.
    pub fn round(self) -> (r: Fx)
        requires
            fx_int(i32::MIN as int) <= self.raw + 32768 <= fx_int(i32::MAX as int),
        ensures
            r.raw == fx_int(fx_scale_down(self.raw + 32768)),
    {
        Fx::from_int(self.round_i32())
    }

    /// The scalar with any fractional part removed toward zero.
    pub fn trunc(self) -> (r: Fx)
        requires
            -fx_int(i32::MAX as int) <= self.raw <= fx_int(i32::MAX as int),
        ensures
            r.raw == fx_int(
                if self.raw >= 0 {
                    fx_scale_down(self.raw as int)
                } else {
                    -fx_scale_down(-self.raw as int)
                },
            ),
    {
        if self.raw >= 0 {
            self.floor()
        } else {
            let m = Fx { raw: -self.raw };
            let q = m.floor_i32();
            proof {
                lemma_scale_down_ordered(0, m.raw as int);
                lemma_scale_down_exact(0);
            }
            Fx::from_int(-q)
        }
    }

    /// The smallest whole-tile scalar at or above this one.
    pub fn ceil(self) -> (r: Fx)
        requires
            -fx_int(i32::MAX as int) <= self.raw <= fx_int(i32::MAX as int),
        ensures
            r.raw == fx_int(-fx_scale_down(-self.raw as int)),
    {
        let m = Fx { raw: -self.raw };
        let q = m.floor_i32();
        proof {
            lemma_scale_down_ordered(-fx_int(i32::MAX as int), m.raw as int);
            lemma_scale_down_ordered(m.raw as int, fx_int(i32::MAX as int));
            lemma_scale_down_exact(-(i32::MAX as int));
            lemma_scale_down_exact(i32::MAX as int);
        }
        Fx::from_int(-q)
    }

    /// The value clamped into `[lo, hi]`.
    pub fn clamp(self, lo: Fx, hi: Fx) -> (r: Fx)
        requires
            lo.raw <= hi.raw,
        ensures
            r.raw == fx_clamp(self.raw as int, lo.raw as int, hi.raw as int),
    {
        if self.raw < lo.raw {
            lo
        } else if self.raw > hi.raw {
            hi
        } else {
            self
        }
    }

    pub fn lt(self, rhs: Fx) -> (r: bool)
        ensures
            r == (self.raw < rhs.raw),
    {
        self.raw < rhs.raw
    }

    pub fn le(self, rhs: Fx) -> (r: bool)
        ensures
            r == (self.raw <= rhs.raw),
    {
        self.raw <= rhs.raw
    }

    pub fn gt(self, rhs: Fx) -> (r: bool)
        ensures
            r == (self.raw > rhs.raw),
    {
        self.raw > rhs.raw
    }

    pub fn ge(self, rhs: Fx) -> (r: bool)
        ensures
            r == (self.raw >= rhs.raw),
    {
        self.raw >= rhs.raw
    }
}

/// Division of a raw subunit count by a positive divisor, rounding
/// toward negative infinity, computed through unsigned division.
fn floor_div_by(p: i64, d: u64) -> (r: Fx)
    requires
        0 < d <= 0x1_0000_0000,
    ensures
        r.raw == p as int / d as int,
{
    if p >= 0 {
        let q: u64 = (p as u64) / d;
        proof {
            vstd::arithmetic::div_mod::lemma_div_nonincreasing(p as int, d as int);
            vstd::arithmetic::div_mod::lemma_div_pos_is_pos(p as int, d as int);
        }
        Fx { raw: q as i64 }
    } else {
        let m: u64 = (-(p + 1)) as u64;
        let q: u64 = m / d;
        proof {
            lemma_floor_div_neg(p as int, d as int);
            vstd::arithmetic::div_mod::lemma_div_nonincreasing(m as int, d as int);
            vstd::arithmetic::div_mod::lemma_div_pos_is_pos(m as int, d as int);
        }
        Fx { raw: -(q as i64) - 1 }
    }
}

/// Division of a raw subunit count by the scale, rounding toward
/// negative infinity.
fn floor_div_scale(p: i64) -> (r: Fx)
    ensures
        r.raw == fx_scale_down(p as int),
{
    floor_div_by(p, 65536)
}

/// For negative `p` and positive `d`: `p / d == -((-p - 1) / d) - 1`.
proof fn lemma_floor_div_neg(p: int, d: int)
    requires
        p < 0,
        d > 0,
    ensures
        p / d == -((-p - 1) / d) - 1,
{
    let m = -p - 1;
    let q = m / d;
    let r = m % d;
    vstd::arithmetic::div_mod::lemma_fundamental_div_mod(m, d);
    vstd::arithmetic::div_mod::lemma_mod_bound(m, d);
    assert(p == (-q - 1) * d + (d - 1 - r)) by {
        assert((-q - 1) * d == -(q * d) - d) by (nonlinear_arith);
    }
    vstd::arithmetic::div_mod::lemma_fundamental_div_mod_converse(p, d, -q - 1, d - 1 - r);
}

/// Dividing a value within `b * d` of zero by `d` lands within `b` of
/// zero.
pub proof fn lemma_div_scale_bound(x: int, b: int, d: int)
    requires
        -(b * d) <= x <= b * d,
        0 <= b,
        1 <= d,
    ensures
        -b <= x / d <= b,
{
    vstd::arithmetic::div_mod::lemma_div_is_ordered(x, b * d, d);
    vstd::arithmetic::div_mod::lemma_div_is_ordered(-(b * d), x, d);
    vstd::arithmetic::div_mod::lemma_fundamental_div_mod_converse(b * d, d, b, 0);
    assert((-b) * d == -(b * d)) by (nonlinear_arith);
    vstd::arithmetic::div_mod::lemma_fundamental_div_mod_converse(-(b * d), d, -b, 0);
}

/// A fixed-point product of a value within `b` of zero and a factor of
/// at most one tile unit stays within `b` of zero.
pub proof fn lemma_fx_mul_unit_bound(a: int, d: int, b: int)
    requires
        -b <= a <= b,
        0 <= b,
        -(FX_ONE as int) <= d <= FX_ONE,
    ensures
        -b <= fx_scale_down(a * d) <= b,
{
    assert(-(b * (FX_ONE as int)) <= a * d <= b * (FX_ONE as int)) by (nonlinear_arith)
        requires
            -b <= a <= b,
            0 <= b,
            -65536 <= d <= 65536,
    ;
    lemma_div_scale_bound(a * d, b, FX_ONE as int);
}

/// Scaling down respects order.
pub proof fn lemma_scale_down_ordered(a: int, b: int)
    requires
        a <= b,
    ensures
        fx_scale_down(a) <= fx_scale_down(b),
{
    vstd::arithmetic::div_mod::lemma_div_is_ordered(a, b, FX_ONE as int);
}

/// Scaling a whole tile count up and down is the identity.
pub proof fn lemma_scale_down_exact(i: int)
    ensures
        fx_scale_down(fx_int(i)) == i,
{
    vstd::arithmetic::div_mod::lemma_fundamental_div_mod_converse(
        i * (FX_ONE as int),
        FX_ONE as int,
        i,
        0,
    );
}

} // verus!
