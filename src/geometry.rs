//! Points of the world on an integer grid of millimetres.

use vstd::prelude::*;

verus! {

/// Largest coordinate magnitude of a point in the world (about 1000 km).
pub const COORD_LIMIT: i64 = 0x4000_0000;

/// A point, or a direction, in millimetres.
#[derive(Copy, Clone, PartialEq, Eq, Debug, Structural)]
pub struct Point {
    pub x: i64,
    pub y: i64,
    pub z: i64,
}

pub open spec fn in_world(p: Point) -> bool {
    &&& -COORD_LIMIT <= p.x <= COORD_LIMIT
    &&& -COORD_LIMIT <= p.y <= COORD_LIMIT
    &&& -COORD_LIMIT <= p.z <= COORD_LIMIT
}

/// Squared euclidean distance.
pub open spec fn sqr_dist(a: Point, b: Point) -> int {
    (a.x - b.x) * (a.x - b.x) + (a.y - b.y) * (a.y - b.y) + (a.z - b.z) * (a.z - b.z)
}

/// Vector from `b` to `a`.
pub open spec fn diff(a: Point, b: Point) -> Point {
    Point { x: (a.x - b.x) as i64, y: (a.y - b.y) as i64, z: (a.z - b.z) as i64 }
}

pub proof fn lemma_square_bound(d: int)
    requires
        -2 * COORD_LIMIT <= d <= 2 * COORD_LIMIT,
    ensures
        0 <= d * d <= 4 * COORD_LIMIT * COORD_LIMIT,
{
    assert(0 <= d * d <= 4 * COORD_LIMIT * COORD_LIMIT) by (nonlinear_arith)
        requires
            -2 * COORD_LIMIT <= d <= 2 * COORD_LIMIT,
            COORD_LIMIT == 0x4000_0000,
    ;
}

impl Point {
    pub fn new(x: i64, y: i64, z: i64) -> (p: Point)
        ensures
            p == (Point { x, y, z }),
    {
        Point { x, y, z }
    }

    /// Squared distance to `other`.
    pub fn sqr_distance(&self, other: &Point) -> (d: u64)
        requires
            in_world(*self),
            in_world(*other),
        ensures
            d == sqr_dist(*self, *other),
    {
        let dx = self.x - other.x;
        let dy = self.y - other.y;
        let dz = self.z - other.z;
        proof {
            lemma_square_bound(dx as int);
            lemma_square_bound(dy as int);
            lemma_square_bound(dz as int);
        }
        (dx * dx) as u64 + (dy * dy) as u64 + (dz * dz) as u64
    }

    /// Vector from `other` to `self`.
    pub fn minus(&self, other: &Point) -> (v: Point)
        requires
            in_world(*self),
            in_world(*other),
        ensures
            v == diff(*self, *other),
    {
        Point { x: self.x - other.x, y: self.y - other.y, z: self.z - other.z }
    }

    pub fn is_zero(&self) -> (b: bool)
        ensures
            b == (self.x == 0 && self.y == 0 && self.z == 0),
    {
        self.x == 0 && self.y == 0 && self.z == 0
    }
}

} // verus!
