//! The pixel buffer: an owned row-major array of packed 32-bit colors
//! with bounds-checked access and clipped rectangular views.

use vstd::prelude::*;
use crate::geom::{V2, V2i};
use crate::color::Color;

verus! {

/// An owned image: `width * height` packed ARGB pixels, row-major, with
/// the pixel `(x, y)` at index `y * width + x`.
pub struct Bitmap {
    data: Vec<u32>,
    width: i32,
    height: i32,
}

impl Bitmap {
    /// Buffer width in pixels.
    pub closed spec fn spec_width(self) -> int {
        self.width as int
    }

    /// Buffer height in pixels.
    pub closed spec fn spec_height(self) -> int {
        self.height as int
    }

    /// The backing row-major pixel sequence.
    pub closed spec fn pixels(self) -> Seq<u32> {
        self.data@
    }

    /// Structural invariant: positive dimensions whose product is the
    /// backing array's length (and fits the machine's address space).
    pub open spec fn wf(self) -> bool {
        &&& 1 <= self.spec_width() <= i32::MAX
        &&& 1 <= self.spec_height() <= i32::MAX
        &&& self.spec_width() * self.spec_height() <= usize::MAX
        &&& self.pixels().len() == self.spec_width() * self.spec_height()
    }

    /// Whether `(x, y)` lies inside the buffer.
    pub open spec fn in_bounds(self, x: int, y: int) -> bool {
        &&& 0 <= x < self.spec_width()
        &&& 0 <= y < self.spec_height()
    }

    /// The packed color at in-bounds pixel `(x, y)`.
    pub open spec fn pixel_at(self, x: int, y: int) -> u32 {
        self.pixels()[y * self.spec_width() + x]
    }

    /// Same dimensions as `other` (the pixels may differ).
    pub open spec fn same_dims(self, other: Bitmap) -> bool {
        &&& self.spec_width() == other.spec_width()
        &&& self.spec_height() == other.spec_height()
    }

    /// A fresh buffer of the given dimensions, all pixels zero.
    pub fn with_dimensions(width: i32, height: i32) -> (r: Bitmap)
        requires
            1 <= width,
            1 <= height,
            width * height <= usize::MAX,
        ensures
            r.wf(),
            r.spec_width() == width,
            r.spec_height() == height,
            forall|x: int, y: int| r.in_bounds(x, y) ==> r.pixel_at(x, y) == 0,
    {
        proof {
            assert(width * height >= 1) by (nonlinear_arith)
                requires
                    width >= 1,
                    height >= 1,
            ;
        }
        let n: usize = (width as usize) * (height as usize);
        let mut data: Vec<u32> = Vec::new();
        while data.len() < n
            invariant
                data@.len() <= n,
                forall|i: int| 0 <= i < data@.len() ==> data@[i] == 0,
            decreases n - data@.len(),
        {
            data.push(0);
        }
        let r = Bitmap { data, width, height };
        proof {
            assert forall|x: int, y: int| r.in_bounds(x, y) implies r.pixel_at(x, y) == 0 by {
                crate::tilemap::lemma_row_major_index(r.spec_width(), r.spec_height(), x, y);
            }
        }
        r
    }

    /// A buffer owning the given pixels; the data length must be the
    /// product of the dimensions.
    pub fn from_pixels(width: i32, height: i32, data: Vec<u32>) -> (r: Bitmap)
        requires
            1 <= width,
            1 <= height,
            width * height <= usize::MAX,
            data@.len() == width * height,
        ensures
            r.wf(),
            r.spec_width() == width,
            r.spec_height() == height,
            r.pixels() == data@,
    {
        Bitmap { data, width, height }
    }

    /// The buffer with every pixel set to `color`.
    pub fn filled(self, color: Color) -> (r: Bitmap)
        requires
            self.wf(),
        ensures
            r.wf(),
            r.same_dims(self),
            forall|x: int, y: int|
                r.in_bounds(x, y) ==> r.pixel_at(x, y) == crate::color::packed(
                    color.a as int,
                    color.r as int,
                    color.g as int,
                    color.b as int,
                ),
    {
        let mut b = self;
        let v = color.as_u32();
        let n = b.data.len();
        let mut i: usize = 0;
        while i < n
            invariant
                i <= n,
                b.data@.len() == n,
                b.width == self.width,
                b.height == self.height,
                forall|q: int| 0 <= q < i ==> b.data@[q] == v,
            decreases n - i,
        {
            b.data.set(i, v);
            i += 1;
        }
        proof {
            assert forall|x: int, y: int| b.in_bounds(x, y) implies b.pixel_at(x, y)
                == crate::color::packed(
                color.a as int,
                color.r as int,
                color.g as int,
                color.b as int,
            ) by {
                crate::tilemap::lemma_row_major_index(b.spec_width(), b.spec_height(), x, y);
            }
        }
        b
    }

    pub fn width(&self) -> (r: i32)
        ensures
            r == self.spec_width(),
    {
        self.width
    }

    pub fn height(&self) -> (r: i32)
        ensures
            r == self.spec_height(),
    {
        self.height
    }

    /// Width and height as a vector.
    pub fn dim(&self) -> (r: V2i)
        ensures
            r.x == self.spec_width(),
            r.y == self.spec_height(),
    {
        V2 { x: self.width, y: self.height }
    }

    /// The backing pixels, row-major.
    pub fn as_slice(&self) -> (r: &[u32])
        ensures
            r@ == self.pixels(),
    {
        self.data.as_slice()
    }

    /// The packed color at `(x, y)`; the pixel must be in bounds.
    pub fn get_pixel(&self, x: i32, y: i32) -> (r: u32)
        requires
            self.wf(),
            self.in_bounds(x as int, y as int),
        ensures
            r == self.pixel_at(x as int, y as int),
    {
        proof {
            crate::tilemap::lemma_row_major_index(
                self.spec_width(),
                self.spec_height(),
                x as int,
                y as int,
            );
        }
        let idx: usize = (y as usize) * (self.width as usize) + (x as usize);
        self.data[idx]
    }

    /// Writes the packed color at `(x, y)`; the pixel must be in bounds.
    pub fn set_pixel(&mut self, x: i32, y: i32, v: u32)
        requires
            old(self).wf(),
            old(self).in_bounds(x as int, y as int),
        ensures
            final(self).wf(),
            final(self).same_dims(*old(self)),
            final(self).pixels() == old(self).pixels().update(
                y as int * old(self).spec_width() + x as int,
                v,
            ),
            forall|px: int, py: int|
                final(self).in_bounds(px, py) ==> final(self).pixel_at(px, py) == (if px == x && py
                    == y {
                    v
                } else {
                    old(self).pixel_at(px, py)
                }),
    {
        proof {
            crate::tilemap::lemma_row_major_index(
                self.spec_width(),
                self.spec_height(),
                x as int,
                y as int,
            );
        }
        let idx: usize = (y as usize) * (self.width as usize) + (x as usize);
        self.data.set(idx, v);
        proof {
            assert forall|px: int, py: int| self.in_bounds(px, py) implies self.pixel_at(px, py)
                == (if px == x && py == y {
                v
            } else {
                old(self).pixel_at(px, py)
            }) by {
                crate::tilemap::lemma_row_major_index(
                    self.spec_width(),
                    self.spec_height(),
                    px,
                    py,
                );
                if px != x || py != y {
                    crate::tilemap::lemma_row_major_injective(
                        self.spec_width(),
                        px,
                        py,
                        x as int,
                        y as int,
                    );
                }
            }
        }
    }

    /// The sub-rectangle of `[top_left, bottom_right)` that lies inside
    /// the buffer, with inverted extents collapsed to empty.
    pub fn clamped_view(&self, top_left: V2i, bottom_right: V2i) -> (r: BitmapView)
        requires
            self.wf(),
        ensures
            r == clip_view(*self, top_left, bottom_right),
            r.wf(*self),
    {
        let x0 = clamp_i32(top_left.x, 0, self.width);
        let y0 = clamp_i32(top_left.y, 0, self.height);
        let mut x1 = clamp_i32(bottom_right.x, 0, self.width);
        let mut y1 = clamp_i32(bottom_right.y, 0, self.height);
        if x1 < x0 {
            x1 = x0;
        }
        if y1 < y0 {
            y1 = y0;
        }
        BitmapView { x0, y0, x1, y1 }
    }
}

/// A clipped rectangular region of some buffer: the pixels `(x, y)` with
/// `x0 <= x < x1` and `y0 <= y < y1`.
#[derive(Copy, Clone, PartialEq, Eq, Structural, Debug)]
pub struct BitmapView {
    pub x0: i32,
    pub y0: i32,
    pub x1: i32,
    pub y1: i32,
}

impl BitmapView {
    /// The view lies inside `b` and has no inverted extent.
    pub open spec fn wf(self, b: Bitmap) -> bool {
        &&& 0 <= self.x0 <= self.x1 <= b.spec_width()
        &&& 0 <= self.y0 <= self.y1 <= b.spec_height()
    }

    /// Whether `(x, y)` lies inside the view.
    pub open spec fn contains(self, x: int, y: int) -> bool {
        &&& self.x0 <= x < self.x1
        &&& self.y0 <= y < self.y1
    }

    pub fn width(&self) -> (r: i32)
        requires
            0 <= self.x0 <= self.x1,
        ensures
            r == self.x1 - self.x0,
    {
        self.x1 - self.x0
    }

    pub fn height(&self) -> (r: i32)
        requires
            0 <= self.y0 <= self.y1,
        ensures
            r == self.y1 - self.y0,
    {
        self.y1 - self.y0
    }
}

/// The view `clamped_view` yields: each corner clamped to the buffer,
/// inverted extents collapsed to empty at the clamped top-left corner.
pub open spec fn clip_view(b: Bitmap, top_left: V2i, bottom_right: V2i) -> BitmapView {
    let x0 = clamp_spec(top_left.x as int, 0, b.spec_width());
    let y0 = clamp_spec(top_left.y as int, 0, b.spec_height());
    let x1 = clamp_spec(bottom_right.x as int, 0, b.spec_width());
    let y1 = clamp_spec(bottom_right.y as int, 0, b.spec_height());
    BitmapView {
        x0: x0 as i32,
        y0: y0 as i32,
        x1: if x1 < x0 {
            x0 as i32
        } else {
            x1 as i32
        },
        y1: if y1 < y0 {
            y0 as i32
        } else {
            y1 as i32
        },
    }
}

/// The clamp of `v` into `[lo, hi]`.
pub open spec fn clamp_spec(v: int, lo: int, hi: int) -> int {
    if v < lo {
        lo
    } else if v > hi {
        hi
    } else {
        v
    }
}

/// The value clamped into `[lo, hi]`.
pub fn clamp_i32(v: i32, lo: i32, hi: i32) -> (r: i32)
    requires
        lo <= hi,
    ensures
        r == clamp_spec(v as int, lo as int, hi as int),
{
    if v < lo {
        lo
    } else if v > hi {
        hi
    } else {
        v
    }
}

} // verus!
