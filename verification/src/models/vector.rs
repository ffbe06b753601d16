use vstd::prelude::*;
use crate::game::Direction;

verus! {

/// Vector holds the x and y position of a game object, in whole arena units.
#[derive(Clone, Copy, Debug, PartialEq, Eq, Structural)]
pub struct Vector {
    pub x: i32,
    pub y: i32,
}

/// Where a step of `speed` units along `dir` leads from `pos`. North is
/// towards smaller `y`, west towards smaller `x`.
pub open spec fn step(pos: Vector, dir: Direction, speed: int) -> (int, int) {
    match dir {
        Direction::EAST => (pos.x + speed, pos.y as int),
        Direction::NORTH => (pos.x as int, pos.y - speed),
        Direction::WEST => (pos.x - speed, pos.y as int),
        Direction::SOUTH => (pos.x as int, pos.y + speed),
    }
}

/// Whether a point can be held in a `Vector`.
pub open spec fn representable(p: (int, int)) -> bool {
    i32::MIN <= p.0 <= i32::MAX && i32::MIN <= p.1 <= i32::MAX
}

/// The box overlap test shared by every entity: a box with its corner at
/// `pos` and side lengths `w` and `h` meets the rectangle with corners
/// `(wall[0], wall[1])` and `(wall[2], wall[3])` on both axes.
pub open spec fn box_overlaps_wall(pos: Vector, w: int, h: int, wall: [i32; 4]) -> bool {
    pos.x + w >= wall[0] && wall[2] >= pos.x && pos.y + h >= wall[1] && wall[3] >= pos.y
}

/// Squared Euclidean distance between two positions.
pub open spec fn dist_sq(a: Vector, b: Vector) -> int {
    (a.x - b.x) * (a.x - b.x) + (a.y - b.y) * (a.y - b.y)
}

/// The ring test for two round bodies of diameters `size_a` and `size_b`
/// whose centres are `sum` apart, squared: the distance lies between the
/// difference and the sum of the two radii, both ends included. Stated on
/// four times the squared distance so that half sizes need no fractions.
pub open spec fn in_annulus(sum: int, size_a: int, size_b: int) -> bool {
    (size_a - size_b) * (size_a - size_b) <= 4 * sum && 4 * sum <= (size_a + size_b) * (size_a
        + size_b)
}

impl Vector {
    pub fn new(x: i32, y: i32) -> (v: Self)
        ensures
            v == (Vector { x, y }),
    {
        Vector { x: x, y: y }
    }

    /// The position one step of `speed` units along `dir`, or `None` where
    /// that point lies outside the coordinate range.
    pub fn stepped(&self, dir: Direction, speed: i32) -> (r: Option<Vector>)
        requires
            0 <= speed,
        ensures
            representable(step(*self, dir, speed as int)) ==> r == Some(
                Vector {
                    x: step(*self, dir, speed as int).0 as i32,
                    y: step(*self, dir, speed as int).1 as i32,
                },
            ),
            !representable(step(*self, dir, speed as int)) ==> r.is_none(),
    {
        match dir {
            Direction::EAST => match self.x.checked_add(speed) {
                Some(x) => Some(Vector { x, y: self.y }),
                None => None,
            },
            Direction::NORTH => match self.y.checked_sub(speed) {
                Some(y) => Some(Vector { x: self.x, y }),
                None => None,
            },
            Direction::WEST => match self.x.checked_sub(speed) {
                Some(x) => Some(Vector { x, y: self.y }),
                None => None,
            },
            Direction::SOUTH => match self.y.checked_add(speed) {
                Some(y) => Some(Vector { x: self.x, y }),
                None => None,
            },
        }
    }

    /// The box overlap test against a wall, for a box of `w` by `h` units.
    pub fn overlaps_wall(&self, w: i32, h: i32, wall: &[i32; 4]) -> (hit: bool)
        ensures
            hit == box_overlaps_wall(*self, w as int, h as int, *wall),
    {
        let collision_x: bool = self.x as i64 + w as i64 >= wall[0] as i64 && wall[2] >= self.x;
        let collision_y: bool = self.y as i64 + h as i64 >= wall[1] as i64 && wall[3] >= self.y;
        collision_x && collision_y
    }

    /// The ring test between a body of diameter `size_a` centred here and
    /// one of diameter `size_b` centred at `other`.
    pub fn within_ring(&self, other: &Vector, size_a: i32, size_b: i32) -> (hit: bool)
        ensures
            hit == in_annulus(dist_sq(*self, *other), size_a as int, size_b as int),
    {
        let x2: i128 = self.x as i128 - other.x as i128;
        let y2: i128 = self.y as i128 - other.y as i128;
        let lo: i128 = size_a as i128 - size_b as i128;
        let hi: i128 = size_a as i128 + size_b as i128;
        assert(x2 * x2 <= 0x1_0000_0000_0000_0000 && x2 * x2 >= 0) by (nonlinear_arith)
            requires
                -0x1_0000_0000 <= x2 <= 0x1_0000_0000,
        ;
        assert(y2 * y2 <= 0x1_0000_0000_0000_0000 && y2 * y2 >= 0) by (nonlinear_arith)
            requires
                -0x1_0000_0000 <= y2 <= 0x1_0000_0000,
        ;
        assert(lo * lo <= 0x1_0000_0000_0000_0000 && lo * lo >= 0) by (nonlinear_arith)
            requires
                -0x1_0000_0000 <= lo <= 0x1_0000_0000,
        ;
        assert(hi * hi <= 0x1_0000_0000_0000_0000 && hi * hi >= 0) by (nonlinear_arith)
            requires
                -0x1_0000_0000 <= hi <= 0x1_0000_0000,
        ;
        let sum: i128 = x2 * x2 + y2 * y2;
        lo * lo <= 4 * sum && 4 * sum <= hi * hi
    }
}

} // verus!
