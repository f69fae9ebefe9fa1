//! Block coordinates and fixed-point positions.

use vstd::prelude::*;

verus! {

/// How many position units make up the edge of one block.
pub const UNITS_PER_BLOCK: i64 = 4096;

/// The coordinates of a block.
#[derive(Clone, Copy, Debug, PartialEq, Eq, Structural)]
pub struct BlockPosition {
    pub x: i32,
    pub y: i32,
    pub z: i32,
}

/// A point in the world, in fixed point: each coordinate counts
/// [`UNITS_PER_BLOCK`] units to the block.
#[derive(Clone, Copy, Debug, PartialEq, Eq, Structural)]
pub struct Position {
    pub x: i64,
    pub y: i64,
    pub z: i64,
}

impl BlockPosition {
    /// The corner of the block with the lowest coordinates.
    pub open spec fn spec_position(&self) -> Position {
        Position {
            x: (self.x * UNITS_PER_BLOCK) as i64,
            y: (self.y * UNITS_PER_BLOCK) as i64,
            z: (self.z * UNITS_PER_BLOCK) as i64,
        }
    }

    /// The corner of the block with the lowest coordinates.
    #[verifier::when_used_as_spec(spec_position)]
    pub fn position(&self) -> (p: Position)
        ensures
            p == self.spec_position(),
            p.x == self.x * UNITS_PER_BLOCK,
            p.y == self.y * UNITS_PER_BLOCK,
            p.z == self.z * UNITS_PER_BLOCK,
    {
        Position {
            x: self.x as i64 * UNITS_PER_BLOCK,
            y: self.y as i64 * UNITS_PER_BLOCK,
            z: self.z as i64 * UNITS_PER_BLOCK,
        }
    }
}

impl Position {
    /// The square of the Euclidean distance between two points, in units squared.
    pub open spec fn distance_squared_to(self, other: Position) -> int {
        (self.x - other.x) * (self.x - other.x) + (self.y - other.y) * (self.y - other.y) + (self.z
            - other.z) * (self.z - other.z)
    }

    /// Whether the two points lie farther apart than the distance whose square is `limit`.
    pub fn farther_than(&self, other: &Position, limit: u64) -> (far: bool)
        ensures
            far == (self.distance_squared_to(*other) > limit),
    {
        let bound: i128 = 0x1_0000_0000;
        let dx: i128 = self.x as i128 - other.x as i128;
        let dy: i128 = self.y as i128 - other.y as i128;
        let dz: i128 = self.z as i128 - other.z as i128;
        proof {
            lemma_square_bounds(dx as int, bound as int);
            lemma_square_bounds(dy as int, bound as int);
            lemma_square_bounds(dz as int, bound as int);
        }
        if dx >= bound || dx <= -bound || dy >= bound || dy <= -bound || dz >= bound || dz <= -bound {
            return true;
        }
        let d2: i128 = dx * dx + dy * dy + dz * dz;
        d2 > limit as i128
    }
}

/// A number within `bound` of zero has a square below `bound * bound`; any other has a
/// square of at least that.
proof fn lemma_square_bounds(d: int, bound: int)
    requires
        bound > 0,
    ensures
        d * d >= 0,
        -bound < d < bound ==> d * d < bound * bound,
        (d >= bound || d <= -bound) ==> d * d >= bound * bound,
{
    assert(d * d >= 0) by (nonlinear_arith);
    assert(-bound < d < bound ==> d * d < bound * bound) by (nonlinear_arith)
        requires
            bound > 0,
    ;
    assert((d >= bound || d <= -bound) ==> d * d >= bound * bound) by (nonlinear_arith)
        requires
            bound > 0,
    ;
}

} // verus!
