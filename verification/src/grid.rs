//! Discrete grid cells and their mapping to continuous world coordinates.

use vstd::prelude::*;

verus! {

/// Side length of one grid cell, in world milliunits.
pub const CELL_SIZE: i64 = 1000;

/// Offset from a cell's lower-left corner to its center, in world milliunits.
pub const HALF_CELL: i64 = 500;

/// Grid coordinates are bounded so that a cell center always fits in `i64`
/// milliunits with room to spare.
pub const MAX_CELL: i64 = 2_000_000_000;

/// A discrete grid cell, identified by integer coordinates.
#[derive(Clone, Copy, PartialEq, Eq, Structural, Debug)]
pub struct Pos {
    pub x: i64,
    pub y: i64,
}

/// The world-space coordinate (in milliunits) of the center of the cell with
/// grid coordinate `c` on one axis.
pub open spec fn center_spec(c: int) -> int {
    c * CELL_SIZE + HALF_CELL
}

/// True when a grid coordinate is within the supported playing field.
pub open spec fn cell_in_range(c: int) -> bool {
    -MAX_CELL <= c <= MAX_CELL
}

/// True when both coordinates of a cell are within the supported playing field.
pub open spec fn pos_in_range(p: Pos) -> bool {
    cell_in_range(p.x as int) && cell_in_range(p.y as int)
}

impl Pos {
    pub fn new(x: i64, y: i64) -> (r: Pos)
        ensures
            r.x == x,
            r.y == y,
    {
        Pos { x, y }
    }
}

/// World-space center coordinate of grid coordinate `c` on one axis.
pub fn center(c: i64) -> (r: i64)
    requires
        cell_in_range(c as int),
    ensures
        r == center_spec(c as int),
{
    c * CELL_SIZE + HALF_CELL
}

} // verus!
