//! Axial hexagonal coordinates: addresses, adjacency and distance.

use vstd::prelude::*;

verus! {

/// The largest absolute value that a coordinate of a grid cell may have.
///
/// Within this bound every sum and difference of coordinates that a path
/// search forms stays far inside `i32`, and no route over distinct cells is
/// long enough to overflow a `u32` cost.
pub const MAX_COORDINATE: i32 = 10_000;

/// A cell address on the hexagonal grid, in axial coordinates.
///
/// The third cubic coordinate is implied: `z = -x - y`.
#[derive(Clone, Copy, Debug, PartialEq, Eq, Hash, Structural)]
pub struct HexPosition {
    pub x: i32,
    pub y: i32,
}

/// The absolute value of an integer.
pub open spec fn abs(v: int) -> int {
    if v < 0 {
        -v
    } else {
        v
    }
}

/// The largest of three integers.
pub open spec fn max3(a: int, b: int, c: int) -> int {
    if a >= b && a >= c {
        a
    } else if b >= c {
        b
    } else {
        c
    }
}

impl HexPosition {
    /// The number of steps between two hexes on an unobstructed grid: the
    /// largest absolute difference among the three cubic coordinates.
    pub open spec fn distance(self, other: HexPosition) -> int {
        let dx = self.x - other.x;
        let dy = self.y - other.y;
        max3(abs(dx), abs(dy), abs(dx + dy))
    }

    /// Whether `other` is one of the six hexes that share an edge with `self`.
    pub open spec fn adjacent(self, other: HexPosition) -> bool {
        let dx = other.x - self.x;
        let dy = other.y - self.y;
        ||| dx == 1 && dy == 0
        ||| dx == 0 && dy == 1
        ||| dx == -1 && dy == 1
        ||| dx == -1 && dy == 0
        ||| dx == 0 && dy == -1
        ||| dx == 1 && dy == -1
    }

    /// Whether both coordinates lie within `MAX_COORDINATE` of zero.
    pub open spec fn in_bounds(self) -> bool {
        &&& -MAX_COORDINATE <= self.x <= MAX_COORDINATE
        &&& -MAX_COORDINATE <= self.y <= MAX_COORDINATE
    }

    /// The hex at axial coordinates `(x, y)`.
    pub fn new(x: i32, y: i32) -> (hex: Self)
        ensures
            hex.x == x,
            hex.y == y,
    {
        HexPosition { x, y }
    }

    /// Tests whether the hex may be a cell of a grid.
    pub fn is_in_bounds(self) -> (inside: bool)
        ensures
            inside == self.in_bounds(),
    {
        -MAX_COORDINATE <= self.x && self.x <= MAX_COORDINATE && -MAX_COORDINATE <= self.y
            && self.y <= MAX_COORDINATE
    }

    /// Computes the hex distance to `rhs`. It is exact for every pair of
    /// hexes, which is why the result is wider than a coordinate.
    pub fn distance_to(self, rhs: HexPosition) -> (steps: u64)
        ensures
            steps == self.distance(rhs),
    {
        let dx: i64 = self.x as i64 - rhs.x as i64;
        let dy: i64 = self.y as i64 - rhs.y as i64;
        let dz: i64 = dx + dy;
        let ax: u64 = if dx < 0 { (-dx) as u64 } else { dx as u64 };
        let ay: u64 = if dy < 0 { (-dy) as u64 } else { dy as u64 };
        let az: u64 = if dz < 0 { (-dz) as u64 } else { dz as u64 };
        if ax >= ay && ax >= az {
            ax
        } else if ay >= az {
            ay
        } else {
            az
        }
    }

    /// Tests whether `other` shares an edge with `self`.
    pub fn is_neighbor(self, other: HexPosition) -> (near: bool)
        ensures
            near == self.adjacent(other),
    {
        let dx: i64 = other.x as i64 - self.x as i64;
        let dy: i64 = other.y as i64 - self.y as i64;
        (dx == 1 && dy == 0) || (dx == 0 && dy == 1) || (dx == -1 && dy == 1) || (dx == -1 && dy
            == 0) || (dx == 0 && dy == -1) || (dx == 1 && dy == -1)
    }
}

/// Two hexes share an edge exactly when their distance is one.
pub proof fn lemma_adjacent_is_distance_one(a: HexPosition, b: HexPosition)
    ensures
        a.adjacent(b) <==> a.distance(b) == 1,
{
}

/// Going through a third hex never shortens the way.
pub proof fn lemma_distance_triangle(a: HexPosition, b: HexPosition, c: HexPosition)
    ensures
        a.distance(c) <= a.distance(b) + b.distance(c),
{
}

} // verus!
