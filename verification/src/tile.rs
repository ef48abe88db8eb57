//! Tile kinds of the level grid.

use vstd::prelude::*;

verus! {

/// A single cell of the level grid: `Empty` is passable and invisible,
/// `Ground` is solid and visible.
#[derive(Copy, Clone, PartialEq, Eq, Structural, Debug)]
pub enum Tile {
    Empty,
    Ground,
}

impl Tile {
    /// Ground is drawn; Empty never is.
    pub fn is_visible(self) -> (r: bool)
        ensures
            r == (self is Ground),
    {
        match self {
            Tile::Ground => true,
            Tile::Empty => false,
        }
    }

    /// Ground blocks movement; Empty never does.
    pub fn is_obstacle(self) -> (r: bool)
        ensures
            r == (self is Ground),
    {
        match self {
            Tile::Ground => true,
            Tile::Empty => false,
        }
    }

    /// Byte used for this tile in the serialized grid format.
    pub fn to_byte(self) -> (r: u8)
        ensures
            r == self.as_byte(),
    {
        match self {
            Tile::Empty => 0,
            Tile::Ground => 1,
        }
    }

    /// Tile encoded by a byte of the serialized grid format; bytes other
    /// than 0 and 1 decode to Empty.
    pub fn from_byte(b: u8) -> (r: Tile)
        ensures
            r == Tile::of_byte(b),
    {
        if b == 1 {
            Tile::Ground
        } else {
            Tile::Empty
        }
    }

    pub open spec fn as_byte(self) -> u8 {
        match self {
            Tile::Empty => 0u8,
            Tile::Ground => 1u8,
        }
    }

    pub open spec fn of_byte(b: u8) -> Tile {
        if b == 1 {
            Tile::Ground
        } else {
            Tile::Empty
        }
    }
}

impl Default for Tile {
    /// The default tile is Empty.
    fn default() -> (r: Self)
        ensures
            r is Empty,
    {
        Tile::Empty
    }
}

/// Decoding inverts encoding for every tile.
pub proof fn lemma_tile_byte_round_trip(t: Tile)
    ensures
        Tile::of_byte(t.as_byte()) == t,
{
}

} // verus!
