//! Plane vectors and axis-aligned box overlap.

use vstd::math::abs;
use vstd::prelude::*;
use crate::config::POS_MAX;

verus! {

/// A plane vector in fixed-point sub-units.
#[derive(Clone, Copy, PartialEq, Eq, Structural, Debug)]
pub struct Vec2 {
    pub x: i64,
    pub y: i64,
}

impl Vec2 {
    /// Both components bounded by the position range.
    pub open spec fn in_pos_range(self) -> bool {
        &&& abs(self.x as int) <= POS_MAX
        &&& abs(self.y as int) <= POS_MAX
    }

    /// The zero vector.
    pub fn zero() -> (r: Vec2)
        ensures
            r.x == 0,
            r.y == 0,
    {
        Vec2 { x: 0, y: 0 }
    }
}

/// Two axis-aligned boxes, given by their centers and half-extents, overlap
/// exactly when they intersect with positive area: on each axis the distance
/// of the centers is strictly below the sum of the half-extents. Boxes that
/// merely touch along an edge do not overlap.
pub open spec fn boxes_overlap(a_pos: Vec2, a_half: Vec2, b_pos: Vec2, b_half: Vec2) -> bool {
    &&& abs(a_pos.x - b_pos.x) < a_half.x + b_half.x
    &&& abs(a_pos.y - b_pos.y) < a_half.y + b_half.y
}

/// Axis-aligned box collision test.
pub fn aabb_overlap(a_pos: Vec2, a_half: Vec2, b_pos: Vec2, b_half: Vec2) -> (r: bool)
    requires
        a_pos.in_pos_range(),
        b_pos.in_pos_range(),
        a_half.in_pos_range(),
        b_half.in_pos_range(),
        a_half.x >= 0,
        a_half.y >= 0,
        b_half.x >= 0,
        b_half.y >= 0,
    ensures
        r == boxes_overlap(a_pos, a_half, b_pos, b_half),
{
    let dx: i64 = if a_pos.x >= b_pos.x {
        a_pos.x - b_pos.x
    } else {
        b_pos.x - a_pos.x
    };
    let dy: i64 = if a_pos.y >= b_pos.y {
        a_pos.y - b_pos.y
    } else {
        b_pos.y - a_pos.y
    };
    dx < a_half.x + b_half.x && dy < a_half.y + b_half.y
}

} // verus!
