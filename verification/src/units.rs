//! Fixed-point coordinates.

use vstd::prelude::*;

verus! {

/// Fixed-point steps in one world unit.
pub const UNIT: i64 = 10;

/// A point or a displacement in the plane, each coordinate in tenths of a world unit.
#[derive(Clone, Copy, Debug, PartialEq, Eq, Structural)]
pub struct FixedVec2 {
    pub x: i64,
    pub y: i64,
}

impl FixedVec2 {
    /// The vector with the given coordinates, in tenths.
    pub fn new(x: i64, y: i64) -> (v: Self)
        ensures
            v.x == x,
            v.y == y,
    {
        FixedVec2 { x, y }
    }
}

} // verus!
