//! Collision queries against the tile grid: walking tile indices along
//! one axis for a moving rectangle and reporting the first obstruction.

use vstd::prelude::*;
use crate::tile::Tile;
use crate::tilemap::Tilemap;

verus! {

/// Whether a horizontal step at column `i` is obstructed for a
/// rectangle spanning rows `ya` and `yb`: a sample obstructs when it is
/// Ground or falls outside the grid (the boundary is solid).
pub open spec fn x_step_obstructed(grid: Tilemap, i: int, ya: int, yb: int) -> bool {
    !(grid.in_bounds(i, ya) && grid.tile_at(i, ya) is Empty && grid.in_bounds(i, yb)
        && grid.tile_at(i, yb) is Empty)
}

/// Whether a vertical step at row `i` is obstructed for a rectangle
/// spanning columns `xa` and `xb`.
pub open spec fn y_step_obstructed(grid: Tilemap, i: int, xa: int, xb: int) -> bool {
    !(grid.in_bounds(xa, i) && grid.tile_at(xa, i) is Empty && grid.in_bounds(xb, i)
        && grid.tile_at(xb, i) is Empty)
}

/// The first obstructed column on the walk from `from` to `to`
/// (inclusive at both ends), or None where the whole walk is clear.
pub open spec fn first_obstructed_x(grid: Tilemap, from: int, to: int, ya: int, yb: int) -> Option<
    int,
>
    decreases
            (if to >= from {
                to - from
            } else {
                from - to
            }),
{
    if x_step_obstructed(grid, from, ya, yb) {
        Some(from)
    } else if from == to {
        None
    } else if to > from {
        first_obstructed_x(grid, from + 1, to, ya, yb)
    } else {
        first_obstructed_x(grid, from - 1, to, ya, yb)
    }
}

/// The first obstructed row on the walk from `from` to `to` (inclusive
/// at both ends), or None where the whole walk is clear.
pub open spec fn first_obstructed_y(grid: Tilemap, from: int, to: int, xa: int, xb: int) -> Option<
    int,
>
    decreases
            (if to >= from {
                to - from
            } else {
                from - to
            }),
{
    if y_step_obstructed(grid, from, xa, xb) {
        Some(from)
    } else if from == to {
        None
    } else if to > from {
        first_obstructed_y(grid, from + 1, to, xa, xb)
    } else {
        first_obstructed_y(grid, from - 1, to, xa, xb)
    }
}

/// Whether the samples at column `i`, rows `ya` and `yb`, block a
/// horizontal step.
pub fn x_step_blocked(grid: &Tilemap, i: i32, ya: i32, yb: i32) -> (r: bool)
    requires
        grid.wf(),
    ensures
        r == x_step_obstructed(*grid, i as int, ya as int, yb as int),
{
    let t0 = grid.get(i, ya);
    let t1 = grid.get(i, yb);
    !(matches!(t0, Some(Tile::Empty)) && matches!(t1, Some(Tile::Empty)))
}

/// Whether the samples at row `i`, columns `xa` and `xb`, block a
/// vertical step.
pub fn y_step_blocked(grid: &Tilemap, i: i32, xa: i32, xb: i32) -> (r: bool)
    requires
        grid.wf(),
    ensures
        r == y_step_obstructed(*grid, i as int, xa as int, xb as int),
{
    let t0 = grid.get(xa, i);
    let t1 = grid.get(xb, i);
    !(matches!(t0, Some(Tile::Empty)) && matches!(t1, Some(Tile::Empty)))
}

/// Walks columns from `from` to `to` inclusive, sampling rows `ya` and
/// `yb` at each step, and returns the first obstructed column index.
#[verifier::loop_isolation(false)]
pub fn collision_query_x(grid: &Tilemap, from: i32, to: i32, ya: i32, yb: i32) -> (r: Option<i32>)
    requires
        grid.wf(),
        -0x4000_0000 < from < 0x4000_0000,
        -0x4000_0000 < to < 0x4000_0000,
    ensures
        r matches Some(i) ==> first_obstructed_x(*grid, from as int, to as int, ya as int, yb as int)
            == Some(i as int),
        r is None ==> first_obstructed_x(*grid, from as int, to as int, ya as int, yb as int)
            is None,
{
    let mut i = from;
    if to >= from {
        while i < to
            invariant
                from <= i <= to,
                first_obstructed_x(*grid, from as int, to as int, ya as int, yb as int)
                    == first_obstructed_x(*grid, i as int, to as int, ya as int, yb as int),
            decreases to - i,
        {
            if x_step_blocked(grid, i, ya, yb) {
                return Some(i);
            }
            i += 1;
        }
    } else {
        while i > to
            invariant
                to <= i <= from,
                first_obstructed_x(*grid, from as int, to as int, ya as int, yb as int)
                    == first_obstructed_x(*grid, i as int, to as int, ya as int, yb as int),
            decreases i - to,
        {
            if x_step_blocked(grid, i, ya, yb) {
                return Some(i);
            }
            i -= 1;
        }
    }
    if x_step_blocked(grid, i, ya, yb) {
        Some(i)
    } else {
        None
    }
}

/// Walks rows from `from` to `to` inclusive, sampling columns `xa` and
/// `xb` at each step, and returns the first obstructed row index.
#[verifier::loop_isolation(false)]
pub fn collision_query_y(grid: &Tilemap, from: i32, to: i32, xa: i32, xb: i32) -> (r: Option<i32>)
    requires
        grid.wf(),
        -0x4000_0000 < from < 0x4000_0000,
        -0x4000_0000 < to < 0x4000_0000,
    ensures
        r matches Some(i) ==> first_obstructed_y(*grid, from as int, to as int, xa as int, xb as int)
            == Some(i as int),
        r is None ==> first_obstructed_y(*grid, from as int, to as int, xa as int, xb as int)
            is None,
{
    let mut i = from;
    if to >= from {
        while i < to
            invariant
                from <= i <= to,
                first_obstructed_y(*grid, from as int, to as int, xa as int, xb as int)
                    == first_obstructed_y(*grid, i as int, to as int, xa as int, xb as int),
            decreases to - i,
        {
            if y_step_blocked(grid, i, xa, xb) {
                return Some(i);
            }
            i += 1;
        }
    } else {
        while i > to
            invariant
                to <= i <= from,
                first_obstructed_y(*grid, from as int, to as int, xa as int, xb as int)
                    == first_obstructed_y(*grid, i as int, to as int, xa as int, xb as int),
            decreases i - to,
        {
            if y_step_blocked(grid, i, xa, xb) {
                return Some(i);
            }
            i -= 1;
        }
    }
    if y_step_blocked(grid, i, xa, xb) {
        Some(i)
    } else {
        None
    }
}

/// Where the walk reports an obstruction, that step is obstructed, lies
/// on the walk, and every step before it is clear; where it reports
/// none, every step of the walk is clear.
pub proof fn lemma_first_obstructed_x_sound(grid: Tilemap, from: int, to: int, ya: int, yb: int)
    ensures
        first_obstructed_x(grid, from, to, ya, yb) matches Some(i) ==> {
            &&& x_step_obstructed(grid, i, ya, yb)
            &&& if to >= from {
                from <= i <= to
            } else {
                to <= i <= from
            }
            &&& forall|j: int|
                (if to >= from {
                    from <= j < i
                } else {
                    i < j <= from
                }) ==> !x_step_obstructed(grid, j, ya, yb)
        },
        first_obstructed_x(grid, from, to, ya, yb) is None ==> forall|j: int|
            (if to >= from {
                from <= j <= to
            } else {
                to <= j <= from
            }) ==> !x_step_obstructed(grid, j, ya, yb),
    decreases
            (if to >= from {
                to - from
            } else {
                from - to
            }),
{
    if x_step_obstructed(grid, from, ya, yb) {
    } else if from == to {
    } else if to > from {
        lemma_first_obstructed_x_sound(grid, from + 1, to, ya, yb);
    } else {
        lemma_first_obstructed_x_sound(grid, from - 1, to, ya, yb);
    }
}

/// Where the walk reports an obstruction, that step is obstructed, lies
/// on the walk, and every step before it is clear; where it reports
/// none, every step of the walk is clear.
pub proof fn lemma_first_obstructed_y_sound(grid: Tilemap, from: int, to: int, xa: int, xb: int)
    ensures
        first_obstructed_y(grid, from, to, xa, xb) matches Some(i) ==> {
            &&& y_step_obstructed(grid, i, xa, xb)
            &&& if to >= from {
                from <= i <= to
            } else {
                to <= i <= from
            }
            &&& forall|j: int|
                (if to >= from {
                    from <= j < i
                } else {
                    i < j <= from
                }) ==> !y_step_obstructed(grid, j, xa, xb)
        },
        first_obstructed_y(grid, from, to, xa, xb) is None ==> forall|j: int|
            (if to >= from {
                from <= j <= to
            } else {
                to <= j <= from
            }) ==> !y_step_obstructed(grid, j, xa, xb),
    decreases
            (if to >= from {
                to - from
            } else {
                from - to
            }),
{
    if y_step_obstructed(grid, from, xa, xb) {
    } else if from == to {
    } else if to > from {
        lemma_first_obstructed_y_sound(grid, from + 1, to, xa, xb);
    } else {
        lemma_first_obstructed_y_sound(grid, from - 1, to, xa, xb);
    }
}

} // verus!
