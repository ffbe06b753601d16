use vstd::prelude::*;
use crate::models::vector::Vector;
use crate::random::gen_range;

verus! {

/// The longest side an arena may have: every coordinate of its layout and
/// of its spawn regions then fits the coordinate type.
pub const MAX_ARENA: i32 = 1_000_000_000;

/// How often a candidate inside the reserved zone is drawn again before
/// it is moved to the zone's upper edge instead.
pub const PLACEMENT_RETRIES: u32 = 1000;

/// A rectangle of candidate points: `x_low <= x < x_high` and
/// `y_low <= y < y_high`.
#[derive(Clone, Copy, Debug, PartialEq, Eq, Structural)]
pub struct Region {
    pub x_low: i32,
    pub x_high: i32,
    pub y_low: i32,
    pub y_high: i32,
}

impl Region {
    pub open spec fn contains(self, p: Vector) -> bool {
        self.x_low <= p.x < self.x_high && self.y_low <= p.y < self.y_high
    }

    /// A region one can draw from: it holds a point and lies in the
    /// non-negative quarter of the plane.
    pub open spec fn drawable(self) -> bool {
        0 <= self.x_low < self.x_high && 0 <= self.y_low < self.y_high
    }
}

/// Whether an arena is small enough for its layout to be computed.
pub open spec fn arena_fits(w: int, h: int) -> bool {
    0 <= w <= MAX_ARENA && 0 <= h <= MAX_ARENA
}

/// The left strip of the arena, between the outer wall and the left inner
/// wall.
pub open spec fn left_region(w: int, h: int) -> Region {
    Region { x_low: 45, x_high: (w / 4 - 20) as i32, y_low: 40, y_high: (h - 135) as i32 }
}

/// The strip above the middle bar.
pub open spec fn top_region(w: int, h: int) -> Region {
    Region {
        x_low: (w / 4 + 50) as i32,
        x_high: ((w / 4) * 3) as i32,
        y_low: 40,
        y_high: (h / 4) as i32,
    }
}

/// The right strip of the arena.
pub open spec fn right_region(w: int, h: int) -> Region {
    Region {
        x_low: ((w / 4) * 3 + 50) as i32,
        x_high: (w - 50) as i32,
        y_low: 40,
        y_high: (h - 135) as i32,
    }
}

/// The strip below the middle bar.
pub open spec fn bottom_region(w: int, h: int) -> Region {
    Region {
        x_low: (w / 4 + 50) as i32,
        x_high: ((w / 4) * 3) as i32,
        y_low: ((h / 4) * 3) as i32,
        y_high: (h - 135) as i32,
    }
}

/// The region that a candidate inside the reserved zone is drawn from
/// again: the left strip, ten units wider.
pub open spec fn redraw_region(w: int, h: int) -> Region {
    Region { x_low: 45, x_high: (w / 4 - 10) as i32, y_low: 40, y_high: (h - 135) as i32 }
}

/// The region that belongs to a quadrant draw: 1 left, 2 top, 3 right,
/// 4 bottom, and the left strip for any other number.
pub open spec fn block_region(block: u64, w: int, h: int) -> Region {
    if block == 2 {
        top_region(w, h)
    } else if block == 3 {
        right_region(w, h)
    } else if block == 4 {
        bottom_region(w, h)
    } else {
        left_region(w, h)
    }
}

/// An arena in which every spawn region holds at least one point.
pub open spec fn usable(w: int, h: int) -> bool {
    &&& arena_fits(w, h)
    &&& left_region(w, h).drawable()
    &&& top_region(w, h).drawable()
    &&& right_region(w, h).drawable()
    &&& bottom_region(w, h).drawable()
}

/// The zone around the player's start in which nothing is placed.
pub open spec fn reserved(p: Vector, h: int) -> bool {
    40 < p.x < 90 && h / 2 - 50 < p.y < h / 2 + 50
}

/// What holds of every point that placement hands out: it lies in one of
/// the spawn regions and outside the reserved zone.
pub open spec fn placement_ok(p: Vector, w: int, h: int) -> bool {
    &&& !reserved(p, h)
    &&& (top_region(w, h).contains(p) || right_region(w, h).contains(p) || bottom_region(
        w,
        h,
    ).contains(p) || redraw_region(w, h).contains(p))
}

/// Where a candidate ends up once the redraws are used up: a candidate in
/// the reserved zone moves straight up to the zone's edge, any other stays.
pub open spec fn settled(p: Vector, h: int) -> Vector {
    if reserved(p, h) {
        Vector { x: p.x, y: (h / 2 - 50) as i32 }
    } else {
        p
    }
}

/// Tells whether every spawn region of the arena holds a point.
pub fn is_usable(dimensions: &[i32; 2]) -> (ok: bool)
    ensures
        ok == usable(dimensions[0] as int, dimensions[1] as int),
{
    let w: i32 = dimensions[0];
    let h: i32 = dimensions[1];
    if w < 0 || w > MAX_ARENA || h < 0 || h > MAX_ARENA {
        return false;
    }
    45 < w / 4 - 20 && 40 < h - 135 && w / 4 + 50 < (w / 4) * 3 && 40 < h / 4 && (w / 4) * 3 + 50
        < w - 50 && (h / 4) * 3 < h - 135
}

/// The spawn region for a quadrant draw.
pub fn quadrant(block: u64, dimensions: &[i32; 2]) -> (r: Region)
    requires
        arena_fits(dimensions[0] as int, dimensions[1] as int),
    ensures
        r == block_region(block, dimensions[0] as int, dimensions[1] as int),
{
    let w: i32 = dimensions[0];
    let h: i32 = dimensions[1];
    if block == 2 {
        Region { x_low: w / 4 + 50, x_high: (w / 4) * 3, y_low: 40, y_high: h / 4 }
    } else if block == 3 {
        Region { x_low: (w / 4) * 3 + 50, x_high: w - 50, y_low: 40, y_high: h - 135 }
    } else if block == 4 {
        Region { x_low: w / 4 + 50, x_high: (w / 4) * 3, y_low: (h / 4) * 3, y_high: h - 135 }
    } else {
        Region { x_low: 45, x_high: w / 4 - 20, y_low: 40, y_high: h - 135 }
    }
}

/// Tells whether a point lies in the reserved zone of an arena of the
/// given height.
pub fn in_reserved_zone(p: &Vector, height: i32) -> (inside: bool)
    requires
        0 <= height <= MAX_ARENA,
    ensures
        inside == reserved(*p, height as int),
{
    p.x > 40 && p.x < 90 && p.y > height / 2 - 50 && p.y < height / 2 + 50
}

/// Moves a candidate that still lies in the reserved zone up to its edge.
pub fn settle(p: Vector, height: i32) -> (r: Vector)
    requires
        0 <= height <= MAX_ARENA,
    ensures
        r == settled(p, height as int),
        !reserved(r, height as int),
{
    if in_reserved_zone(&p, height) {
        Vector { x: p.x, y: height / 2 - 50 }
    } else {
        p
    }
}

/// Draws a point of the region. Whatever is drawn lies in the region.
pub fn draw_in(region: &Region) -> (p: Vector)
    requires
        region.drawable(),
    ensures
        region.contains(p),
{
    let x: u64 = gen_range(region.x_low as u64, region.x_high as u64);
    let y: u64 = gen_range(region.y_low as u64, region.y_high as u64);
    Vector { x: x as i32, y: y as i32 }
}

/// Picks a random point for a game object: one of the four quadrants is
/// drawn, then a point in it, and while that point lies in the reserved
/// zone another is drawn from the left strip, up to `PLACEMENT_RETRIES`
/// times; a point that lies in the zone even then is moved to its edge.
/// Whatever is drawn, the point handed out lies in a spawn region and
/// outside the reserved zone.
pub fn random_placement(dimensions: &[i32; 2]) -> (p: Vector)
    requires
        usable(dimensions[0] as int, dimensions[1] as int),
    ensures
        placement_ok(p, dimensions[0] as int, dimensions[1] as int),
{
    let w: i32 = dimensions[0];
    let h: i32 = dimensions[1];
    let rand_block: u64 = gen_range(1, 5);
    let first = quadrant(rand_block, dimensions);
    let mut p = draw_in(&first);
    let again = Region { x_low: 45, x_high: w / 4 - 10, y_low: 40, y_high: h - 135 };
    let mut tries: u32 = 0;
    while tries < PLACEMENT_RETRIES && in_reserved_zone(&p, h)
        invariant
            usable(w as int, h as int),
            again == redraw_region(w as int, h as int),
            reserved(p, h as int) ==> again.contains(p),
            !reserved(p, h as int) ==> placement_ok(p, w as int, h as int),
        decreases PLACEMENT_RETRIES - tries,
    {
        p = draw_in(&again);
        tries = tries + 1;
    }
    settle(p, h)
}

/// A point that placement hands out in a usable arena never lies in the
/// zone around the player's start, `40 < x < 90` and within 50 units of
/// half the height, and always lies between the outer walls.
pub proof fn lemma_placement_avoids_start(p: Vector, w: int, h: int)
    requires
        usable(w, h),
        placement_ok(p, w, h),
    ensures
        !(40 < p.x < 90 && h / 2 - 50 < p.y < h / 2 + 50),
        45 <= p.x < w - 50,
        40 <= p.y < h - 135,
{
}

} // verus!
