//! Integer fixed-point geometry. Positions, directions and distances are
//! held in thousandths of a world unit, so distance comparisons are exact
//! and free of rounding.

use vstd::prelude::*;

verus! {

/// Largest coordinate magnitude the model admits, in thousandths of a
/// world unit (one thousand units each way; the playfield is fifty).
/// Keeping coordinates inside this bound keeps every squared distance
/// inside `i64`.
pub const COORD_LIMIT: i64 = 1_000_000;

/// Largest projectile range the model admits, in thousandths of a unit.
pub const RANGE_LIMIT: i64 = 2_000_000;

/// A point or direction in 3-space, in thousandths of a world unit.
#[derive(Debug, Copy, Clone, PartialEq, Eq, Structural)]
pub struct Vec3Milli {
    pub x: i64,
    pub y: i64,
    pub z: i64,
}

/// A planar vector in thousandths of a unit (normalized movement intent).
#[derive(Debug, Copy, Clone, PartialEq, Eq, Structural)]
pub struct Vec2Milli {
    pub x: i64,
    pub y: i64,
}

impl Vec3Milli {
    /// All coordinates lie inside the world bound.
    pub open spec fn in_bounds(self) -> bool {
        &&& -COORD_LIMIT <= self.x <= COORD_LIMIT
        &&& -COORD_LIMIT <= self.y <= COORD_LIMIT
        &&& -COORD_LIMIT <= self.z <= COORD_LIMIT
    }

    /// A unit-scale direction: each component within one thousand
    /// thousandths, i.e. inside the unit cube.
    pub open spec fn is_direction(self) -> bool {
        &&& -1000 <= self.x <= 1000
        &&& -1000 <= self.y <= 1000
        &&& -1000 <= self.z <= 1000
    }

    pub fn new(x: i64, y: i64, z: i64) -> (v: Vec3Milli)
        ensures
            v == (Vec3Milli { x, y, z }),
    {
        Vec3Milli { x, y, z }
    }

    pub fn zero() -> (v: Vec3Milli)
        ensures
            v == (Vec3Milli { x: 0i64, y: 0i64, z: 0i64 }),
    {
        Vec3Milli { x: 0, y: 0, z: 0 }
    }
}

impl Vec2Milli {
    pub fn new(x: i64, y: i64) -> (v: Vec2Milli)
        ensures
            v == (Vec2Milli { x, y }),
    {
        Vec2Milli { x, y }
    }

    pub fn zero() -> (v: Vec2Milli)
        ensures
            v == (Vec2Milli { x: 0i64, y: 0i64 }),
    {
        Vec2Milli { x: 0, y: 0 }
    }
}

/// Squared Euclidean distance between two points, as unbounded integers.
pub open spec fn spec_dist_sq(a: Vec3Milli, b: Vec3Milli) -> int {
    (b.x - a.x) * (b.x - a.x) + (b.y - a.y) * (b.y - a.y) + (b.z - a.z) * (b.z - a.z)
}

/// Squared distance between two in-bounds points; exact, never overflows.
pub fn dist_sq(a: Vec3Milli, b: Vec3Milli) -> (d: i64)
    requires
        a.in_bounds(),
        b.in_bounds(),
    ensures
        d == spec_dist_sq(a, b),
        0 <= d <= 12_000_000_000_000,
{
    let dx = b.x - a.x;
    let dy = b.y - a.y;
    let dz = b.z - a.z;
    assert(0 <= dx * dx <= 4_000_000_000_000) by (nonlinear_arith)
        requires -2_000_000 <= dx <= 2_000_000;
    assert(0 <= dy * dy <= 4_000_000_000_000) by (nonlinear_arith)
        requires -2_000_000 <= dy <= 2_000_000;
    assert(0 <= dz * dz <= 4_000_000_000_000) by (nonlinear_arith)
        requires -2_000_000 <= dz <= 2_000_000;
    dx * dx + dy * dy + dz * dz
}

} // verus!
