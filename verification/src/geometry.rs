//! Fixed-point world coordinates.
//!
//! A world position is a pair of `i64` sub-unit counts. The sub-unit scale
//! (how many sub-units stand for one pixel) is the caller's choice; the
//! library only requires that every length it is handed — positions, cell
//! sizes, viewport extents, movement steps — uses the same scale.

use vstd::prelude::*;

verus! {

/// Largest coordinate magnitude the library accepts, leaving ample headroom
/// for sums of a position with a whole world extent.
pub const MAX_COORD: i64 = 0x4000_0000_0000;

/// A continuous 2D position in world space, in fixed-point sub-units.
#[derive(Debug, Clone, Copy, PartialEq, Eq, Structural)]
pub struct WorldPos {
    pub x: i64,
    pub y: i64,
}

impl WorldPos {
    /// Both coordinates lie within the range the library's arithmetic covers.
    pub open spec fn in_coord_range(self) -> bool {
        -MAX_COORD <= self.x <= MAX_COORD && -MAX_COORD <= self.y <= MAX_COORD
    }

    pub fn new(x: i64, y: i64) -> (r: WorldPos)
        ensures
            r.x == x,
            r.y == y,
    {
        WorldPos { x, y }
    }
}

} // verus!
