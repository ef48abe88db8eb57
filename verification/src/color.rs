//! Packed 32-bit colors: 8 bits each of alpha, red, green and blue.

use vstd::prelude::*;

verus! {

/// A color as four 8-bit channels, packed as `0xAARRGGBB`.
#[derive(Copy, Clone, PartialEq, Eq, Structural, Debug)]
pub struct Color {
    pub b: u8,
    pub g: u8,
    pub r: u8,
    pub a: u8,
}

/// The packed form of the four channels.
pub open spec fn packed(a: int, r: int, g: int, b: int) -> int {
    a * 0x100_0000 + r * 0x1_0000 + g * 0x100 + b
}

impl Color {
    pub const A_MASK: u32 = 0xFF00_0000;

    pub const R_MASK: u32 = 0x00FF_0000;

    pub const G_MASK: u32 = 0x0000_FF00;

    pub const B_MASK: u32 = 0x0000_00FF;

    /// A color from its four channels.
    pub fn argb8(a: u8, r: u8, g: u8, b: u8) -> (c: Color)
        ensures
            c == (Color { b, g, r, a }),
    {
        Color { b, g, r, a }
    }

    /// An opaque color from its three color channels.
    pub fn rgb8(r: u8, g: u8, b: u8) -> (c: Color)
        ensures
            c == (Color { b, g, r, a: 0xFF }),
    {
        Color { b, g, r, a: 0xFF }
    }

    /// The packed 32-bit form, alpha in the top byte.
    pub fn as_u32(self) -> (v: u32)
        ensures
            v == packed(self.a as int, self.r as int, self.g as int, self.b as int),
    {
        (self.a as u32) * 0x100_0000 + (self.r as u32) * 0x1_0000 + (self.g as u32) * 0x100 + (
        self.b as u32)
    }

    pub fn transparent() -> (c: Color)
        ensures
            c == (Color { b: 0, g: 0, r: 0, a: 0 }),
    {
        Color { b: 0, g: 0, r: 0, a: 0 }
    }

    pub fn black() -> (c: Color)
        ensures
            c == (Color { b: 0, g: 0, r: 0, a: 0xFF }),
    {
        Color { b: 0, g: 0, r: 0, a: 0xFF }
    }

    pub fn white() -> (c: Color)
        ensures
            c == (Color { b: 0xFF, g: 0xFF, r: 0xFF, a: 0xFF }),
    {
        Color { b: 0xFF, g: 0xFF, r: 0xFF, a: 0xFF }
    }

    pub fn yellow() -> (c: Color)
        ensures
            c == (Color { b: 0, g: 0xFF, r: 0xFF, a: 0xFF }),
    {
        Color { b: 0, g: 0xFF, r: 0xFF, a: 0xFF }
    }

    pub fn red() -> (c: Color)
        ensures
            c == (Color { b: 0, g: 0, r: 0xFF, a: 0xFF }),
    {
        Color { b: 0, g: 0, r: 0xFF, a: 0xFF }
    }

    pub fn purple() -> (c: Color)
        ensures
            c == (Color { b: 0xFF, g: 0, r: 0xFF, a: 0xFF }),
    {
        Color { b: 0xFF, g: 0, r: 0xFF, a: 0xFF }
    }

    pub fn grey() -> (c: Color)
        ensures
            c == (Color { b: 0x7F, g: 0x7F, r: 0x7F, a: 0xFF }),
    {
        Color { b: 0x7F, g: 0x7F, r: 0x7F, a: 0xFF }
    }
}

/// The channels of a packed color, recovered by place-value arithmetic.
pub open spec fn alpha_of(v: int) -> int {
    v / 0x100_0000 % 256
}

pub open spec fn red_of(v: int) -> int {
    v / 0x1_0000 % 256
}

pub open spec fn green_of(v: int) -> int {
    v / 0x100 % 256
}

pub open spec fn blue_of(v: int) -> int {
    v % 256
}

/// Packing four channels and reading each back recovers the channels.
pub proof fn lemma_pack_unpack(a: int, r: int, g: int, b: int)
    requires
        0 <= a < 256,
        0 <= r < 256,
        0 <= g < 256,
        0 <= b < 256,
    ensures
        alpha_of(packed(a, r, g, b)) == a,
        red_of(packed(a, r, g, b)) == r,
        green_of(packed(a, r, g, b)) == g,
        blue_of(packed(a, r, g, b)) == b,
{
    let v = packed(a, r, g, b);
    assert(v == (a * 0x100 + r) * 0x1_0000 + (g * 0x100 + b));
    vstd::arithmetic::div_mod::lemma_fundamental_div_mod_converse(
        v,
        0x1_0000,
        a * 0x100 + r,
        g * 0x100 + b,
    );
    vstd::arithmetic::div_mod::lemma_fundamental_div_mod_converse(a * 0x100 + r, 0x100, a, r);
    vstd::arithmetic::div_mod::lemma_fundamental_div_mod_converse(g * 0x100 + b, 0x100, g, b);
    assert(v / 0x1_0000 == a * 0x100 + r);
    assert(v / 0x100_0000 == a) by {
        vstd::arithmetic::div_mod::lemma_div_denominator(v, 0x1_0000, 0x100);
    }
    vstd::arithmetic::div_mod::lemma_small_mod(a as nat, 256);
    assert(v % 0x100 == b) by {
        vstd::arithmetic::div_mod::lemma_fundamental_div_mod_converse(
            v,
            0x100,
            (a * 0x100 + r) * 0x100 + g,
            b,
        );
    }
}

} // verus!
