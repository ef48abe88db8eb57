//! The level grid: a resizable row-major array of tiles with
//! serialization to and from a flat byte format.

use vstd::prelude::*;
use crate::tile::Tile;
use crate::geom::{V2, V2i};
use vstd::slice::slice_index_get;
use crate::bytes::{le32, u32_le_bytes, read_u32_le, push_u32_le, lemma_le32_round_trip};

verus! {

/// A rectangular grid of tiles, stored row-major: the cell `(x, y)`
/// lives at index `y * width + x`.
#[derive(Clone)]
pub struct Tilemap {
    width: i32,
    height: i32,
    map: Vec<Tile>,
}

impl Tilemap {
    /// Grid width in tiles.
    pub closed spec fn spec_width(self) -> int {
        self.width as int
    }

    /// Grid height in tiles.
    pub closed spec fn spec_height(self) -> int {
        self.height as int
    }

    /// The backing row-major cell sequence.
    pub closed spec fn cells(self) -> Seq<Tile> {
        self.map@
    }

    /// Structural invariant: positive dimensions whose product is the
    /// backing array's length (and fits the machine's address space).
    pub open spec fn wf(self) -> bool {
        &&& 1 <= self.spec_width() <= i32::MAX
        &&& 1 <= self.spec_height() <= i32::MAX
        &&& self.spec_width() * self.spec_height() <= usize::MAX
        &&& self.cells().len() == self.spec_width() * self.spec_height()
    }

    /// Whether `(x, y)` lies inside the grid.
    pub open spec fn in_bounds(self, x: int, y: int) -> bool {
        &&& 0 <= x < self.spec_width()
        &&& 0 <= y < self.spec_height()
    }

    /// The tile stored at in-bounds cell `(x, y)`.
    pub open spec fn tile_at(self, x: int, y: int) -> Tile {
        self.cells()[y * self.spec_width() + x]
    }

    /// Two grids hold the same level: same dimensions, same tiles.
    pub open spec fn equiv(self, other: Tilemap) -> bool {
        &&& self.spec_width() == other.spec_width()
        &&& self.spec_height() == other.spec_height()
        &&& forall|x: int, y: int|
            self.in_bounds(x, y) ==> self.tile_at(x, y) == other.tile_at(x, y)
    }

    /// A fresh grid of the given dimensions, all cells Empty.
    pub fn new(width: i32, height: i32) -> (r: Tilemap)
        requires
            1 <= width,
            1 <= height,
            width * height <= usize::MAX,
        ensures
            r.wf(),
            r.spec_width() == width,
            r.spec_height() == height,
            forall|x: int, y: int| r.in_bounds(x, y) ==> r.tile_at(x, y) is Empty,
    {
        proof {
            assert(width * height >= 1) by (nonlinear_arith)
                requires
                    width >= 1,
                    height >= 1,
            ;
        }
        let n: usize = (width as usize) * (height as usize);
        let mut map: Vec<Tile> = Vec::new();
        while map.len() < n
            invariant
                map@.len() <= n,
                forall|i: int| 0 <= i < map@.len() ==> map@[i] is Empty,
            decreases n - map@.len(),
        {
            map.push(Tile::Empty);
        }
        let r = Tilemap { width, height, map };
        proof {
            assert forall|x: int, y: int| r.in_bounds(x, y) implies r.tile_at(x, y) is Empty by {
                lemma_row_major_index(r.spec_width(), r.spec_height(), x, y);
            }
        }
        r
    }

    pub fn width(&self) -> (r: i32)
        ensures
            r == self.spec_width(),
    {
        self.width
    }

    pub fn height(&self) -> (r: i32)
        ensures
            r == self.spec_height(),
    {
        self.height
    }

    /// Width and height as a vector.
    pub fn dim(&self) -> (r: V2i)
        ensures
            r.x == self.spec_width(),
            r.y == self.spec_height(),
    {
        V2 { x: self.width, y: self.height }
    }

    /// The tile at `(x, y)`, or None outside the grid.
    pub fn get(&self, x: i32, y: i32) -> (r: Option<Tile>)
        requires
            self.wf(),
        ensures
            r == if self.in_bounds(x as int, y as int) {
                Some(self.tile_at(x as int, y as int))
            } else {
                None::<Tile>
            },
    {
        if 0 <= x && x < self.width && 0 <= y && y < self.height {
            proof {
                lemma_row_major_index(self.spec_width(), self.spec_height(), x as int, y as int);
            }
            let idx: usize = (y as usize) * (self.width as usize) + (x as usize);
            Some(self.map[idx])
        } else {
            None
        }
    }

    /// Stores `tile` at `(x, y)`; writes outside the grid are ignored.
    pub fn set(&mut self, x: i32, y: i32, tile: Tile)
        requires
            old(self).wf(),
        ensures
            final(self).wf(),
            final(self).spec_width() == old(self).spec_width(),
            final(self).spec_height() == old(self).spec_height(),
            old(self).in_bounds(x as int, y as int) ==> final(self).cells() == old(
                self,
            ).cells().update(y as int * old(self).spec_width() + x as int, tile),
            !old(self).in_bounds(x as int, y as int) ==> final(self).cells() == old(self).cells(),
    {
        if 0 <= x && x < self.width && 0 <= y && y < self.height {
            proof {
                lemma_row_major_index(self.spec_width(), self.spec_height(), x as int, y as int);
            }
            let idx: usize = (y as usize) * (self.width as usize) + (x as usize);
            self.map.set(idx, tile);
        }
    }
}

impl Tilemap {
    /// Stores `tile` at `(x, y)` (writes outside the grid are ignored),
    /// stated cell by cell: only the painted cell changes.
    pub fn paint(&mut self, x: i32, y: i32, tile: Tile)
        requires
            old(self).wf(),
        ensures
            final(self).wf(),
            final(self).spec_width() == old(self).spec_width(),
            final(self).spec_height() == old(self).spec_height(),
            forall|qx: int, qy: int|
                final(self).in_bounds(qx, qy) ==> final(self).tile_at(qx, qy) == (if qx == x && qy
                    == y {
                    tile
                } else {
                    old(self).tile_at(qx, qy)
                }),
    {
        self.set(x, y, tile);
        proof {
            assert forall|qx: int, qy: int| self.in_bounds(qx, qy) implies self.tile_at(qx, qy)
                == (if qx == x && qy == y {
                tile
            } else {
                old(self).tile_at(qx, qy)
            }) by {
                lemma_row_major_index(self.spec_width(), self.spec_height(), qx, qy);
                if old(self).in_bounds(x as int, y as int) {
                    lemma_row_major_index(self.spec_width(), self.spec_height(), x as int, y as int);
                    lemma_row_major_injective(self.spec_width(), qx, qy, x as int, y as int);
                }
            }
        }
    }
}

/// The tile a backing index draws from when the row width changes from
/// `w0` to `w1` and the cells are remapped row by row: the same row and
/// column where the column already existed, Empty where the row grew.
pub open spec fn remap_cell(cells0: Seq<Tile>, w0: int, w1: int, p: int) -> Tile {
    if p % w1 < w0 {
        cells0[(p / w1) * w0 + p % w1]
    } else {
        Tile::Empty
    }
}

/// What a resize leaves in each cell: content is preserved where the
/// cell existed before, new cells are Empty.
pub open spec fn is_resize_of(r: Tilemap, g: Tilemap, w: int, h: int) -> bool {
    &&& r.spec_width() == w
    &&& r.spec_height() == h
    &&& forall|x: int, y: int|
        r.in_bounds(x, y) ==> r.tile_at(x, y) == (if g.in_bounds(x, y) {
            g.tile_at(x, y)
        } else {
            Tile::Empty
        })
}

impl Tilemap {
    /// Changes the grid width, shifting each row in place within the
    /// backing array (no reallocation of the grid into a fresh buffer);
    /// rows grow with Empty cells on the right or lose their rightmost
    /// cells.
    fn set_width(&mut self, new_width: i32)
        requires
            old(self).wf(),
            1 <= new_width,
            new_width * old(self).spec_height() <= usize::MAX,
        ensures
            final(self).wf(),
            final(self).spec_width() == new_width,
            final(self).spec_height() == old(self).spec_height(),
            forall|x: int, y: int|
                final(self).in_bounds(x, y) ==> final(self).tile_at(x, y) == (if x < old(self).spec_width() {
                    old(self).tile_at(x, y)
                } else {
                    Tile::Empty
                }),
    {
        let w0: usize = self.width as usize;
        let w1: usize = new_width as usize;
        let h: usize = self.height as usize;
        proof {
            assert(w0 * h == (self.width as int) * (self.height as int)) by (nonlinear_arith)
                requires
                    w0 == self.width as int,
                    h == self.height as int,
            ;
            assert(w1 * h == (new_width as int) * (self.height as int)) by (nonlinear_arith)
                requires
                    w1 == new_width as int,
                    h == self.height as int,
            ;
        }
        let n0: usize = w0 * h;
        let n1: usize = w1 * h;
        let ghost cells0 = self.map@;
        if w1 > w0 {
            proof {
                assert(n0 < n1) by (nonlinear_arith)
                    requires
                        n0 == w0 * h,
                        n1 == w1 * h,
                        w0 < w1,
                        1 <= h,
                ;
            }
            while self.map.len() < n1
                invariant
                    n0 <= self.map@.len() <= n1,
                    n0 == cells0.len(),
                    forall|q: int| 0 <= q < n0 ==> self.map@[q] == cells0[q],
                    self.width == old(self).width,
                    self.height == old(self).height,
                decreases n1 - self.map@.len(),
            {
                self.map.push(Tile::Empty);
            }
            let mut p: usize = n1;
            while p > 0
                invariant
                    p <= n1,
                    self.map@.len() == n1,
                    n0 == cells0.len(),
                    n0 == w0 * h,
                    n1 == w1 * h,
                    1 <= w0 < w1,
                    1 <= h,
                    forall|q: int| 0 <= q < p && q < n0 ==> self.map@[q] == cells0[q],
                    forall|q: int|
                        p <= q < n1 ==> self.map@[q] == remap_cell(
                            cells0,
                            w0 as int,
                            w1 as int,
                            q,
                        ),
                    self.width == old(self).width,
                    self.height == old(self).height,
                decreases p,
            {
                p -= 1;
                let row: usize = p / w1;
                let col: usize = p % w1;
                proof {
                    lemma_remap_source(p as int, w0 as int, w1 as int, h as int);
                }
                let v: Tile = if col < w0 {
                    let src: usize = row * w0 + col;
                    self.map[src]
                } else {
                    Tile::Empty
                };
                self.map.set(p, v);
            }
        } else if w1 < w0 {
            proof {
                assert(n1 < n0) by (nonlinear_arith)
                    requires
                        n0 == w0 * h,
                        n1 == w1 * h,
                        w1 < w0,
                        1 <= h,
                ;
            }
            let mut p: usize = 0;
            while p < n1
                invariant
                    p <= n1,
                    self.map@.len() == n0,
                    n0 == cells0.len(),
                    n0 == w0 * h,
                    n1 == w1 * h,
                    1 <= w1 < w0,
                    1 <= h,
                    forall|q: int| p <= q < n0 ==> self.map@[q] == cells0[q],
                    forall|q: int|
                        0 <= q < p ==> self.map@[q] == remap_cell(cells0, w0 as int, w1 as int, q),
                    self.width == old(self).width,
                    self.height == old(self).height,
                decreases n1 - p,
            {
                proof {
                    lemma_remap_source(p as int, w0 as int, w1 as int, h as int);
                    assert(n1 <= n0) by (nonlinear_arith)
                        requires
                            n1 == w1 * h,
                            n0 == w0 * h,
                            w1 < w0,
                            1 <= h,
                    ;
                }
                let row: usize = p / w1;
                let col: usize = p % w1;
                let src: usize = row * w0 + col;
                let v: Tile = self.map[src];
                self.map.set(p, v);
                p += 1;
            }
            self.map.truncate(n1);
        }
        self.width = new_width;
        proof {
            assert forall|x: int, y: int| self.in_bounds(x, y) implies self.tile_at(x, y) == (
            if x < old(self).spec_width() {
                old(self).tile_at(x, y)
            } else {
                Tile::Empty
            }) by {
                let p = y * (w1 as int) + x;
                lemma_row_major_index(w1 as int, h as int, x, y);
                vstd::arithmetic::div_mod::lemma_fundamental_div_mod_converse(p, w1 as int, y, x);
                if w1 != w0 {
                    assert(self.map@[p] == remap_cell(cells0, w0 as int, w1 as int, p));
                }
            }
            assert(self.wf()) by {
                assert((new_width as int) * (self.height as int) == n1) by (nonlinear_arith)
                    requires
                        n1 == w1 * h,
                        w1 == new_width as int,
                        h == self.height as int,
                ;
            }
        }
    }

    /// Changes the grid height: rows are appended Empty or removed from
    /// the top of the grid (the end of the backing array).
    fn set_height(&mut self, new_height: i32)
        requires
            old(self).wf(),
            1 <= new_height,
            old(self).spec_width() * new_height <= usize::MAX,
        ensures
            final(self).wf(),
            final(self).spec_width() == old(self).spec_width(),
            final(self).spec_height() == new_height,
            forall|x: int, y: int|
                final(self).in_bounds(x, y) ==> final(self).tile_at(x, y) == (if y < old(self).spec_height() {
                    old(self).tile_at(x, y)
                } else {
                    Tile::Empty
                }),
    {
        let w: usize = self.width as usize;
        let h0: usize = self.height as usize;
        proof {
            assert(w * h0 == (self.width as int) * (self.height as int) && w * (new_height as int)
                == (self.width as int) * (new_height as int)) by (nonlinear_arith)
                requires
                    w == self.width as int,
                    h0 == self.height as int,
            ;
        }
        let n0: usize = w * h0;
        let n1: usize = w * (new_height as usize);
        let ghost cells0 = self.map@;
        if n1 > n0 {
            while self.map.len() < n1
                invariant
                    n0 <= self.map@.len() <= n1,
                    n0 == cells0.len(),
                    forall|q: int| 0 <= q < n0 ==> self.map@[q] == cells0[q],
                    forall|q: int| n0 <= q < self.map@.len() ==> self.map@[q] is Empty,
                    self.width == old(self).width,
                    self.height == old(self).height,
                decreases n1 - self.map@.len(),
            {
                self.map.push(Tile::Empty);
            }
        } else {
            self.map.truncate(n1);
        }
        self.height = new_height;
        proof {
            assert forall|x: int, y: int| self.in_bounds(x, y) implies self.tile_at(x, y) == (
            if y < old(self).spec_height() {
                old(self).tile_at(x, y)
            } else {
                Tile::Empty
            }) by {
                let p = y * (w as int) + x;
                lemma_row_major_index(w as int, new_height as int, x, y);
                if y < h0 {
                    lemma_row_major_index(w as int, h0 as int, x, y);
                } else {
                    assert(p >= n0) by (nonlinear_arith)
                        requires
                            p == y * w + x,
                            n0 == w * h0,
                            y >= h0,
                            x >= 0,
                            w >= 1,
                            h0 >= 0,
                    ;
                }
            }
        }
    }

    /// Resizes the grid, width first and then height, keeping the tile
    /// at each surviving cell and filling every new cell with Empty.
    /// Both new dimensions must be positive.
    pub fn resize(&mut self, new_width: i32, new_height: i32)
        requires
            old(self).wf(),
            1 <= new_width,
            1 <= new_height,
            new_width * old(self).spec_height() <= usize::MAX,
            new_width * new_height <= usize::MAX,
        ensures
            final(self).wf(),
            is_resize_of(*final(self), *old(self), new_width as int, new_height as int),
    {
        self.set_width(new_width);
        self.set_height(new_height);
    }
}

/// Facts about the source index a remapped index draws from: the source
/// lies inside the original array, and on the proper side of `p` for
/// the in-place pass to read it before overwriting it.
proof fn lemma_remap_source(p: int, w0: int, w1: int, h: int)
    requires
        1 <= w0,
        1 <= w1,
        1 <= h,
        0 <= p < w1 * h,
    ensures
        0 <= p / w1 < h,
        0 <= p % w1 < w1,
        p == (p / w1) * w1 + p % w1,
        p % w1 < w0 ==> 0 <= (p / w1) * w0 + p % w1 < w0 * h,
        w0 <= w1 ==> (p / w1) * w0 + p % w1 <= p,
        w0 >= w1 ==> (p / w1) * w0 + p % w1 >= p,
{
    vstd::arithmetic::div_mod::lemma_fundamental_div_mod(p, w1);
    vstd::arithmetic::div_mod::lemma_mod_bound(p, w1);
    let row = p / w1;
    let col = p % w1;
    vstd::arithmetic::mul::lemma_mul_is_commutative(w1, row);
    assert(p == row * w1 + col);
    assert(0 <= row < h) by (nonlinear_arith)
        requires
            p == row * w1 + col,
            0 <= col < w1,
            0 <= p < w1 * h,
            1 <= w1,
            1 <= h,
    ;
    assert((col < w0 ==> 0 <= row * w0 + col < w0 * h) && (w0 <= w1 ==> row * w0 + col <= p) && (w0
        >= w1 ==> row * w0 + col >= p)) by (nonlinear_arith)
        requires
            p == row * w1 + col,
            0 <= col < w1,
            0 <= row < h,
            1 <= w0,
            1 <= w1,
    ;
}

/// Growing a grid and then resizing back to the original dimensions
/// restores every original tile, and every cell the growth introduced
/// was Empty.  (Shrinking first instead would lose the cut-off cells:
/// they come back Empty.)
pub proof fn lemma_resize_round_trip(g0: Tilemap, g1: Tilemap, g2: Tilemap, w1: int, h1: int)
    requires
        g0.spec_width() <= w1,
        g0.spec_height() <= h1,
        is_resize_of(g1, g0, w1, h1),
        is_resize_of(g2, g1, g0.spec_width(), g0.spec_height()),
    ensures
        g2.equiv(g0),
        forall|x: int, y: int|
            g1.in_bounds(x, y) && !g0.in_bounds(x, y) ==> g1.tile_at(x, y) is Empty,
{
}

/// Why loading a serialized grid failed.
#[derive(Copy, Clone, PartialEq, Eq, Structural, Debug)]
pub enum TilemapError {
    /// The data ends before the header, or before `width * height`
    /// tile bytes have been read.
    TooShort,
    /// The header describes a grid with a zero dimension, or one too
    /// large for this machine.
    BadDimensions,
}

/// The serialized form of a grid: an 8-byte header of width and height
/// as little-endian 32-bit values, then one byte per tile, row-major.
pub open spec fn serialized(g: Tilemap) -> Seq<u8> {
    u32_le_bytes(g.spec_width()) + u32_le_bytes(g.spec_height()) + g.cells().map(
        |i: int, t: Tile| t.as_byte(),
    )
}

/// The width field of a serialized grid's header.
pub open spec fn header_width(bytes: Seq<u8>) -> int {
    le32(bytes[0], bytes[1], bytes[2], bytes[3])
}

/// The height field of a serialized grid's header.
pub open spec fn header_height(bytes: Seq<u8>) -> int {
    le32(bytes[4], bytes[5], bytes[6], bytes[7])
}

/// Whether a header's dimensions describe a loadable grid on this
/// machine.
pub open spec fn dims_valid(w: int, h: int) -> bool {
    &&& 1 <= w <= i32::MAX
    &&& 1 <= h <= i32::MAX
    &&& w * h <= usize::MAX
}

/// Whether the bytes parse as a grid: a full header, acceptable
/// dimensions, and one byte for every tile.
pub open spec fn parse_ok(bytes: Seq<u8>) -> bool {
    &&& bytes.len() >= 8
    &&& dims_valid(header_width(bytes), header_height(bytes))
    &&& bytes.len() >= 8 + header_width(bytes) * header_height(bytes)
}

impl Tilemap {
    /// Serializes the grid: exactly `8 + width * height` bytes.
    pub fn save(&self) -> (r: Vec<u8>)
        requires
            self.wf(),
        ensures
            r@ == serialized(*self),
            r@.len() == 8 + self.spec_width() * self.spec_height(),
    {
        let mut r: Vec<u8> = Vec::new();
        push_u32_le(&mut r, self.width as u32);
        push_u32_le(&mut r, self.height as u32);
        let n: usize = self.map.len();
        let mut i: usize = 0;
        while i < n
            invariant
                i <= n,
                n == self.map@.len(),
                r@.len() == 8 + i,
                r@.subrange(0, 4) == u32_le_bytes(self.spec_width()),
                r@.subrange(4, 8) == u32_le_bytes(self.spec_height()),
                forall|q: int| 0 <= q < i ==> r@[8 + q] == self.map@[q].as_byte(),
            decreases n - i,
        {
            let b = self.map[i].to_byte();
            let ghost prev = r@;
            r.push(b);
            proof {
                assert(r@.subrange(0, 4) =~= prev.subrange(0, 4));
                assert(r@.subrange(4, 8) =~= prev.subrange(4, 8));
            }
            i += 1;
        }
        proof {
            assert(r@ =~= serialized(*self));
        }
        r
    }

    /// Parses a serialized grid.  Fails with `TooShort` if the data
    /// ends before the header or before the last tile byte, and with
    /// `BadDimensions` if the header holds a zero dimension or one this
    /// machine cannot represent.
    pub fn load(bytes: &[u8]) -> (r: Result<Tilemap, TilemapError>)
        ensures
            r is Ok <==> parse_ok(bytes@),
            r matches Ok(g) ==> {
                &&& g.wf()
                &&& g.spec_width() == header_width(bytes@)
                &&& g.spec_height() == header_height(bytes@)
                &&& forall|x: int, y: int|
                    g.in_bounds(x, y) ==> g.tile_at(x, y) == Tile::of_byte(
                        bytes@[8 + y * g.spec_width() + x],
                    )
            },
            bytes@.len() < 8 ==> r == Err::<Tilemap, TilemapError>(TilemapError::TooShort),
            bytes@.len() >= 8 && !dims_valid(header_width(bytes@), header_height(bytes@)) ==> r
                == Err::<Tilemap, TilemapError>(TilemapError::BadDimensions),
            bytes@.len() >= 8 && dims_valid(header_width(bytes@), header_height(bytes@))
                && bytes@.len() < 8 + header_width(bytes@) * header_height(bytes@) ==> r == Err::<
                Tilemap,
                TilemapError,
            >(TilemapError::TooShort),
    {
        if bytes.len() < 8 {
            return Err(TilemapError::TooShort);
        }
        let w: u32 = read_u32_le(bytes, 0);
        let h: u32 = read_u32_le(bytes, 4);
        if w == 0 || h == 0 || w > 0x7FFF_FFFF || h > 0x7FFF_FFFF {
            return Err(TilemapError::BadDimensions);
        }
        proof {
            assert((w as u64) * (h as u64) < 0x4000_0000_0000_0000) by (nonlinear_arith)
                requires
                    w <= 0x7FFF_FFFF,
                    h <= 0x7FFF_FFFF,
            ;
        }
        let area: u64 = (w as u64) * (h as u64);
        if area > usize::MAX as u64 {
            return Err(TilemapError::BadDimensions);
        }
        if (bytes.len() as u64) < 8 + area {
            return Err(TilemapError::TooShort);
        }
        let n: usize = area as usize;
        let mut map: Vec<Tile> = Vec::new();
        let mut i: usize = 0;
        while i < n
            invariant
                i <= n,
                n + 8 <= bytes@.len(),
                n + 8 <= usize::MAX,
                map@.len() == i,
                forall|q: int| 0 <= q < i ==> map@[q] == Tile::of_byte(bytes@[8 + q]),
            decreases n - i,
        {
            let b = *slice_index_get(bytes, 8 + i);
            map.push(Tile::from_byte(b));
            i += 1;
        }
        let g = Tilemap { width: w as i32, height: h as i32, map };
        proof {
            assert forall|x: int, y: int| g.in_bounds(x, y) implies g.tile_at(x, y)
                == Tile::of_byte(bytes@[8 + y * g.spec_width() + x]) by {
                lemma_row_major_index(g.spec_width(), g.spec_height(), x, y);
            }
        }
        Ok(g)
    }
}

/// Serializing a grid and loading the bytes yields the same level: the
/// header holds the grid's dimensions, the data parses, and every tile
/// byte decodes to the original tile.
pub proof fn lemma_save_load_round_trip(g: Tilemap)
    requires
        g.wf(),
    ensures
        parse_ok(serialized(g)),
        header_width(serialized(g)) == g.spec_width(),
        header_height(serialized(g)) == g.spec_height(),
        forall|x: int, y: int|
            g.in_bounds(x, y) ==> Tile::of_byte(
                serialized(g)[8 + y * g.spec_width() + x],
            ) == g.tile_at(x, y),
{
    let bytes = serialized(g);
    lemma_le32_round_trip(g.spec_width());
    lemma_le32_round_trip(g.spec_height());
    assert(header_width(bytes) == g.spec_width());
    assert(header_height(bytes) == g.spec_height());
    assert forall|x: int, y: int| g.in_bounds(x, y) implies Tile::of_byte(
        bytes[8 + y * g.spec_width() + x],
    ) == g.tile_at(x, y) by {
        lemma_row_major_index(g.spec_width(), g.spec_height(), x, y);
    }
}

/// In a `w` by `h` row-major grid, the index of in-bounds cell `(x, y)`
/// lies inside the backing array.
pub proof fn lemma_row_major_index(w: int, h: int, x: int, y: int)
    requires
        0 <= x < w,
        0 <= y < h,
    ensures
        0 <= y * w + x < w * h,
{
    assert(0 <= y * w + x < w * h) by (nonlinear_arith)
        requires
            0 <= x < w,
            0 <= y < h,
    ;
}

/// Distinct in-bounds cells of a row-major grid have distinct indices.
pub proof fn lemma_row_major_injective(w: int, x0: int, y0: int, x1: int, y1: int)
    requires
        0 <= x0 < w,
        0 <= x1 < w,
        0 <= y0,
        0 <= y1,
    ensures
        (y0 * w + x0 == y1 * w + x1) <==> (x0 == x1 && y0 == y1),
{
    assert((y0 * w + x0 == y1 * w + x1) <==> (x0 == x1 && y0 == y1)) by (nonlinear_arith)
        requires
            0 <= x0 < w,
            0 <= x1 < w,
            0 <= y0,
            0 <= y1,
    ;
}


} // verus!
