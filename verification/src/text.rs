//! Text rendering: a glyph atlas of alpha-mask pixel buffers, one per
//! supported character, drawn left to right; and decimal formatting for
//! the strings the editor overlays.

use vstd::prelude::*;
use crate::bitmap::Bitmap;
use crate::geom::{V2, V2i};
use crate::render::{draw_bmp, blend_pixel, blit_region};

verus! {

/// A glyph atlas: each supported character's alpha-mask image, all of
/// one line height, drawn by advancing a cursor by each glyph's width.
pub struct FontBitmaps {
    pub chars: Vec<(char, Bitmap)>,
    pub height: i32,
}

impl FontBitmaps {
    /// Atlas invariant: a positive line height, each glyph a well-formed
    /// buffer of that height with a positive bounded width, and at most
    /// one glyph per character.
    pub open spec fn wf(self) -> bool {
        &&& 1 <= self.height <= 0x8000
        &&& forall|i: int|
            0 <= i < self.chars@.len() ==> {
                &&& (#[trigger] self.chars@[i]).1.wf()
                &&& self.chars@[i].1.spec_height() == self.height
                &&& 1 <= self.chars@[i].1.spec_width() <= 0x8000
            }
        &&& forall|i: int, j: int|
            0 <= i < j < self.chars@.len() ==> (#[trigger] self.chars@[i]).0 != (
            #[trigger] self.chars@[j]).0
    }

    /// Whether the atlas has a glyph for `c`.
    pub open spec fn has_glyph(self, c: char) -> bool {
        exists|i: int| 0 <= i < self.chars@.len() && (#[trigger] self.chars@[i]).0 == c
    }

    /// The glyph for `c` (meaningful only where `has_glyph` holds).
    pub open spec fn glyph_of(self, c: char) -> Bitmap {
        self.chars@[choose|i: int| 0 <= i < self.chars@.len() && (#[trigger] self.chars@[i]).0 == c].1
    }

    /// Whether the atlas has a glyph for every character of `s`.
    pub open spec fn supports(self, s: Seq<char>) -> bool {
        forall|i: int| 0 <= i < s.len() ==> self.has_glyph(#[trigger] s[i])
    }

    /// Total advance width of `s`: the sum of its glyphs' widths.
    pub open spec fn spec_string_width(self, s: Seq<char>) -> int
        decreases s.len(),
    {
        if s.len() == 0 {
            0
        } else {
            self.spec_string_width(s.drop_last()) + self.glyph_of(s.last()).spec_width()
        }
    }

    /// An atlas from pre-rasterized glyphs (at most one per character)
    /// and their common line height.
    pub fn new(chars: Vec<(char, Bitmap)>, height: i32) -> (r: FontBitmaps)
        requires
            1 <= height <= 0x8000,
            forall|i: int|
                0 <= i < chars@.len() ==> {
                    &&& (#[trigger] chars@[i]).1.wf()
                    &&& chars@[i].1.spec_height() == height
                    &&& 1 <= chars@[i].1.spec_width() <= 0x8000
                },
            forall|i: int, j: int|
                0 <= i < j < chars@.len() ==> (#[trigger] chars@[i]).0 != (#[trigger] chars@[j]).0,
        ensures
            r.wf(),
            r.chars@ == chars@,
            r.height == height,
    {
        FontBitmaps { chars, height }
    }

    /// The line height every glyph shares.
    pub fn height(&self) -> (r: i32)
        ensures
            r == self.height,
    {
        self.height
    }

    /// The index of the glyph for `c`, or None where the atlas has no
    /// such glyph.
    fn find_glyph(&self, c: char) -> (r: Option<usize>)
        ensures
            r matches Some(i) ==> i < self.chars@.len() && self.chars@[i as int].0 == c,
            r is None ==> !self.has_glyph(c),
    {
        let n = self.chars.len();
        let mut i: usize = 0;
        while i < n
            invariant
                i <= n,
                n == self.chars@.len(),
                forall|q: int| 0 <= q < i ==> (#[trigger] self.chars@[q]).0 != c,
            decreases n - i,
        {
            if self.chars[i].0 == c {
                return Some(i);
            }
            i += 1;
        }
        None
    }

    /// The glyph for `c`; the atlas must have one.
    pub fn glyph(&self, c: char) -> (r: &Bitmap)
        requires
            self.wf(),
            self.has_glyph(c),
        ensures
            *r == self.glyph_of(c),
    {
        match self.find_glyph(c) {
            Some(i) => {
                proof {
                    let j = choose|j: int|
                        0 <= j < self.chars@.len() && (#[trigger] self.chars@[j]).0 == c;
                    if j != i {
                        assert(self.chars@[j].0 != self.chars@[i as int].0);
                    }
                }
                &self.chars[i].1
            },
            None => {
                proof {
                    assert(false);
                }
                &self.chars[0].1
            },
        }
    }

    /// Whether the atlas has a glyph for every character of `s`.
    pub fn supports_str(&self, s: &str) -> (r: bool)
        ensures
            r == self.supports(s@),
    {
        let n = s.unicode_len();
        let mut i: usize = 0;
        while i < n
            invariant
                i <= n,
                n == s@.len(),
                forall|q: int| 0 <= q < i ==> self.has_glyph(#[trigger] s@[q]),
            decreases n - i,
        {
            let c = s.get_char(i);
            match self.find_glyph(c) {
                Some(_) => {
                    i += 1;
                },
                None => {
                    return false;
                },
            }
        }
        true
    }

    /// The advance width of `s` in pixels.  Every character of `s` must
    /// have a glyph, and `s` must be at most 1024 characters.
    pub fn width(&self, s: &str) -> (r: i32)
        requires
            self.wf(),
            self.supports(s@),
            s@.len() <= 1024,
        ensures
            r == self.spec_string_width(s@),
            0 <= r <= 0x200_0000,
    {
        let n = s.unicode_len();
        let mut acc: i64 = 0;
        let mut i: usize = 0;
        while i < n
            invariant
                i <= n,
                n == s@.len() <= 1024,
                self.wf(),
                self.supports(s@),
                acc == self.spec_string_width(s@.subrange(0, i as int)),
                0 <= acc <= i * 0x8000,
            decreases n - i,
        {
            let c = s.get_char(i);
            let g = self.glyph(c);
            acc = acc + (g.width() as i64);
            i += 1;
            proof {
                assert(s@.subrange(0, i as int).drop_last() =~= s@.subrange(0, i - 1));
                assert(s@.subrange(0, i as int).last() == s@[i - 1]);
                assert((i - 1) * 0x8000 + 0x8000 == i * 0x8000) by (nonlinear_arith);
            }
        }
        proof {
            assert(s@.subrange(0, n as int) =~= s@);
            assert(n * 0x8000 <= 1024 * 0x8000) by (nonlinear_arith)
                requires
                    0 <= n <= 1024,
            ;
        }
        acc as i32
    }

    /// Draws `s` left to right from `pos` (the top-left corner of the
    /// first glyph), blending each glyph onto the canvas and advancing
    /// by its width; returns the total advance.  Every character must
    /// have a glyph.
    pub fn draw_string(&self, canvas: &mut Bitmap, pos: V2i, s: &str) -> (adv: i32)
        requires
            self.wf(),
            old(canvas).wf(),
            self.supports(s@),
            s@.len() <= 1024,
            -0x10_0000 <= pos.x <= 0x10_0000,
            -0x10_0000 <= pos.y <= 0x10_0000,
        ensures
            adv == self.spec_string_width(s@),
            final(canvas).wf(),
            final(canvas).same_dims(*old(canvas)),
            forall|x: int, y: int|
                final(canvas).in_bounds(x, y) ==> final(canvas).pixel_at(x, y) == spec_text_pixel(
                    *self,
                    old(canvas).pixel_at(x, y),
                    pos,
                    s@,
                    x,
                    y,
                ),
    {
        let n = s.unicode_len();
        let mut cursor: i64 = pos.x as i64;
        let mut i: usize = 0;
        while i < n
            invariant
                i <= n,
                n == s@.len() <= 1024,
                self.wf(),
                canvas.wf(),
                canvas.same_dims(*old(canvas)),
                self.supports(s@),
                -0x10_0000 <= pos.x <= 0x10_0000,
                -0x10_0000 <= pos.y <= 0x10_0000,
                cursor == pos.x + self.spec_string_width(s@.subrange(0, i as int)),
                0 <= self.spec_string_width(s@.subrange(0, i as int)) <= i * 0x8000,
                forall|x: int, y: int|
                    canvas.in_bounds(x, y) ==> canvas.pixel_at(x, y) == spec_text_pixel(
                        *self,
                        old(canvas).pixel_at(x, y),
                        pos,
                        s@.subrange(0, i as int),
                        x,
                        y,
                    ),
            decreases n - i,
        {
            let ghost prefix = s@.subrange(0, i as int);
            let c = s.get_char(i);
            let g = self.glyph(c);
            let p = V2 { x: cursor as i32, y: pos.y };
            draw_bmp(canvas, g, p);
            let w = g.width();
            proof {
                let next = s@.subrange(0, i as int + 1);
                assert(next.drop_last() =~= prefix);
                assert(next.last() == s@[i as int]);
                assert((i + 1) * 0x8000 == i * 0x8000 + 0x8000) by (nonlinear_arith);
                assert forall|x: int, y: int| canvas.in_bounds(x, y) implies canvas.pixel_at(x, y)
                    == spec_text_pixel(
                    *self,
                    old(canvas).pixel_at(x, y),
                    pos,
                    next,
                    x,
                    y,
                ) by {
                    if blit_region(p, g.spec_width(), g.spec_height(), x, y) {
                        lemma_text_pixel_right(
                            *self,
                            old(canvas).pixel_at(x, y),
                            pos,
                            prefix,
                            x,
                            y,
                        );
                    }
                }
            }
            cursor = cursor + (w as i64);
            i += 1;
        }
        proof {
            assert(s@.subrange(0, n as int) =~= s@);
        }
        (cursor - (pos.x as i64)) as i32
    }
}

/// The color of pixel `(x, y)` after drawing `s` from `pos` over a
/// pixel whose previous color was `oldpx`: the blend with the one glyph
/// whose cell covers the pixel, or the old color where none does.
pub open spec fn spec_text_pixel(
    f: FontBitmaps,
    oldpx: u32,
    pos: V2i,
    s: Seq<char>,
    x: int,
    y: int,
) -> u32
    decreases s.len(),
{
    if s.len() == 0 {
        oldpx
    } else {
        let w = f.spec_string_width(s.drop_last());
        let g = f.glyph_of(s.last());
        if pos.x + w <= x < pos.x + w + g.spec_width() && pos.y <= y < pos.y + g.spec_height() {
            blend_pixel(oldpx as int, g.pixel_at(x - pos.x - w, y - pos.y) as int) as u32
        } else {
            spec_text_pixel(f, oldpx, pos, s.drop_last(), x, y)
        }
    }
}

/// The decimal digit character for a value below ten.
pub open spec fn digit_char(d: int) -> char {
    if d == 0 {
        '0'
    } else if d == 1 {
        '1'
    } else if d == 2 {
        '2'
    } else if d == 3 {
        '3'
    } else if d == 4 {
        '4'
    } else if d == 5 {
        '5'
    } else if d == 6 {
        '6'
    } else if d == 7 {
        '7'
    } else if d == 8 {
        '8'
    } else {
        '9'
    }
}

/// The decimal digits of `n`, most significant first.
pub open spec fn spec_digits(n: nat) -> Seq<char>
    decreases n,
{
    if n < 10 {
        seq![digit_char(n as int)]
    } else {
        spec_digits(n / 10).push(digit_char((n % 10) as int))
    }
}

/// The decimal rendering of `v`: a minus sign and the digits of its
/// magnitude, or just the digits where `v` is not negative.
pub open spec fn spec_i32_string(v: int) -> Seq<char> {
    if v < 0 {
        seq!['-'] + spec_digits((-v) as nat)
    } else {
        spec_digits(v as nat)
    }
}

/// The one-character string for a decimal digit.
fn digit_str(d: u8) -> (s: &'static str)
    requires
        d < 10,
    ensures
        s@ =~= seq![digit_char(d as int)],
{
    proof {
        reveal_strlit("0");
        reveal_strlit("1");
        reveal_strlit("2");
        reveal_strlit("3");
        reveal_strlit("4");
        reveal_strlit("5");
        reveal_strlit("6");
        reveal_strlit("7");
        reveal_strlit("8");
        reveal_strlit("9");
    }
    match d {
        0 => "0",
        1 => "1",
        2 => "2",
        3 => "3",
        4 => "4",
        5 => "5",
        6 => "6",
        7 => "7",
        8 => "8",
        _ => "9",
    }
}

/// Renders an unsigned value in decimal.
pub fn u32_to_string(v: u32) -> (s: String)
    ensures
        s@ =~= spec_digits(v as nat),
    decreases v,
{
    if v < 10 {
        String::from_str(digit_str(v as u8))
    } else {
        let mut s = u32_to_string(v / 10);
        s.append(digit_str((v % 10) as u8));
        proof {
            assert(s@ =~= spec_digits((v / 10) as nat).push(digit_char((v % 10) as int)));
        }
        s
    }
}

/// Renders a signed value in decimal, with a leading minus sign where
/// it is negative.
pub fn i32_to_string(v: i32) -> (s: String)
    ensures
        s@ =~= spec_i32_string(v as int),
{
    if v >= 0 {
        u32_to_string(v as u32)
    } else {
        let m: u32 = (-(v as i64)) as u32;
        let mut s = String::from_str("-");
        proof {
            reveal_strlit("-");
        }
        let digits = u32_to_string(m);
        s.append(digits.as_str());
        s
    }
}

/// Pixels at or beyond the end of a drawn string are untouched by it.
proof fn lemma_text_pixel_right(f: FontBitmaps, oldpx: u32, pos: V2i, s: Seq<char>, x: int, y: int)
    requires
        f.wf(),
        f.supports(s),
        x >= pos.x + f.spec_string_width(s),
    ensures
        spec_text_pixel(f, oldpx, pos, s, x, y) == oldpx,
    decreases s.len(),
{
    if s.len() == 0 {
    } else {
        assert(f.has_glyph(s.last()));
        assert(f.supports(s.drop_last())) by {
            assert(forall|i: int|
                0 <= i < s.drop_last().len() ==> #[trigger] s.drop_last()[i] == s[i]);
        }
        lemma_text_pixel_right(f, oldpx, pos, s.drop_last(), x, y);
    }
}

} // verus!
