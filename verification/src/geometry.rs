//! Positions and displacements on the canvas.

use vstd::prelude::*;

verus! {

/// A position on the canvas, in whole canvas units.
#[derive(Clone, Copy, Debug, PartialEq, Eq, Structural)]
pub struct Point {
    pub x: i32,
    pub y: i32,
}

/// A displacement between two positions, in whole canvas units.
///
/// A displacement is wider than a coordinate so that the difference of any
/// two positions can be held exactly.
#[derive(Clone, Copy, Debug, PartialEq, Eq, Structural)]
pub struct Offset {
    pub dx: i64,
    pub dy: i64,
}

/// The coordinate nearest to `v` that a `Point` can hold.
pub open spec fn clamp_coordinate(v: int) -> int {
    if v < i32::MIN {
        i32::MIN as int
    } else if v > i32::MAX {
        i32::MAX as int
    } else {
        v
    }
}

/// Moves one coordinate by `by`, stopping at the ends of the coordinate range.
fn shift_coordinate(coordinate: i32, by: i64) -> (moved: i32)
    ensures
        moved == clamp_coordinate(coordinate + by),
{
    let sum: i128 = coordinate as i128 + by as i128;
    if sum < i32::MIN as i128 {
        i32::MIN
    } else if sum > i32::MAX as i128 {
        i32::MAX
    } else {
        sum as i32
    }
}

impl Offset {
    /// The displacement that moves nothing.
    pub open spec fn spec_zero() -> Offset {
        Offset { dx: 0, dy: 0 }
    }

    /// The displacement that moves nothing.
    pub fn zero() -> (d: Offset)
        ensures
            d == Offset::spec_zero(),
    {
        Offset { dx: 0, dy: 0 }
    }
}

impl Point {
    /// The fallback position used when no pointer position is known.
    pub open spec fn spec_origin() -> Point {
        Point { x: 0, y: 0 }
    }

    /// The displacement that leads from `other` to `self`.
    pub open spec fn spec_offset_from(self, other: Point) -> Offset {
        Offset { dx: (self.x - other.x) as i64, dy: (self.y - other.y) as i64 }
    }

    /// `self` moved by `by`, each coordinate stopping at the ends of its range.
    pub open spec fn spec_shifted(self, by: Offset) -> Point {
        Point {
            x: clamp_coordinate(self.x + by.dx) as i32,
            y: clamp_coordinate(self.y + by.dy) as i32,
        }
    }

    /// The squared Euclidean distance between two positions.
    pub open spec fn dist_sq(self, other: Point) -> int {
        (self.x - other.x) * (self.x - other.x) + (self.y - other.y) * (self.y - other.y)
    }

    /// The fallback position used when no pointer position is known.
    pub fn origin() -> (p: Point)
        ensures
            p == Point::spec_origin(),
    {
        Point { x: 0, y: 0 }
    }

    /// The displacement that leads from `other` to `self`.
    pub fn offset_from(self, other: Point) -> (d: Offset)
        ensures
            d == self.spec_offset_from(other),
            d.dx == self.x - other.x,
            d.dy == self.y - other.y,
    {
        Offset { dx: self.x as i64 - other.x as i64, dy: self.y as i64 - other.y as i64 }
    }

    /// Moves the position by `by`.  A coordinate that would leave the
    /// coordinate range stops at its end.
    pub fn shifted(self, by: Offset) -> (p: Point)
        ensures
            p == self.spec_shifted(by),
    {
        Point { x: shift_coordinate(self.x, by.dx), y: shift_coordinate(self.y, by.dy) }
    }

    /// The squared Euclidean distance between two positions.
    pub fn distance_squared(self, other: Point) -> (d: u128)
        ensures
            d == self.dist_sq(other),
            d <= 2 * 0xffff_ffff * 0xffff_ffff,
    {
        let dx: i128 = self.x as i128 - other.x as i128;
        let dy: i128 = self.y as i128 - other.y as i128;
        assert(0 <= dx * dx <= 0xffff_ffff * 0xffff_ffff) by (nonlinear_arith)
            requires
                -0xffff_ffff <= dx <= 0xffff_ffff,
        ;
        assert(0 <= dy * dy <= 0xffff_ffff * 0xffff_ffff) by (nonlinear_arith)
            requires
                -0xffff_ffff <= dy <= 0xffff_ffff,
        ;
        (dx * dx + dy * dy) as u128
    }
}

/// A position that no pointer reported is taken to be the origin.
pub fn pointer_or_origin(pointer: Option<Point>) -> (p: Point)
    ensures
        p == match pointer {
            Some(q) => q,
            None => Point::spec_origin(),
        },
{
    match pointer {
        Some(q) => q,
        None => Point::origin(),
    }
}

/// Moving a position by the displacement that leads to another position
/// arrives exactly there: recording `target.offset_from(start)` and applying
/// it to `start` causes no jump.
pub proof fn lemma_offset_leads_back(start: Point, target: Point)
    ensures
        start.spec_shifted(target.spec_offset_from(start)) == target,
{
}

/// The squared distance does not depend on the order of the two positions.
pub proof fn lemma_dist_sq_symmetric(a: Point, b: Point)
    ensures
        a.dist_sq(b) == b.dist_sq(a),
        a.dist_sq(b) >= 0,
{
    assert((a.x - b.x) * (a.x - b.x) == (b.x - a.x) * (b.x - a.x)) by (nonlinear_arith);
    assert((a.y - b.y) * (a.y - b.y) == (b.y - a.y) * (b.y - a.y)) by (nonlinear_arith);
}

} // verus!
