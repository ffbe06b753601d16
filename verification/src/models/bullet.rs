use vstd::prelude::*;
use crate::game::Direction;
use crate::models::enemy::{Enemy, ENEMY_SIZE};
use crate::models::player::Player;
use crate::models::vector::{box_overlaps_wall, dist_sq, in_annulus, representable, step, Vector};

verus! {

pub const BULLET_SPEED: i32 = 5;

pub const BULLET_SIZE: i32 = 5;

/// Bullets are used by enemies and the player.
/// pos: the position of the bullet in the arena
/// alive: used to remove bullets when they collide with game objects
/// dir: the direction the bullet is heading
#[derive(Clone, Copy, Debug, PartialEq, Eq, Structural)]
pub struct Bullet {
    pub pos: Vector,
    pub alive: bool,
    pub dir: Direction,
}

impl Bullet {
    /// The bullet after one tick of flight: `BULLET_SPEED` units further
    /// along its heading. A bullet whose next position would leave the
    /// coordinate range stays where it is and is no longer alive.
    pub open spec fn advanced(self) -> Bullet {
        let p = step(self.pos, self.dir, BULLET_SPEED as int);
        if representable(p) {
            Bullet { pos: Vector { x: p.0 as i32, y: p.1 as i32 }, ..self }
        } else {
            Bullet { alive: false, ..self }
        }
    }

    /// Whether the bullet's ring test against the enemy succeeds.
    pub open spec fn hits_enemy(self, other: Enemy) -> bool {
        in_annulus(dist_sq(self.pos, other.pos), BULLET_SIZE as int, other.size as int)
    }

    /// Whether the bullet's ring test against the player succeeds.
    pub open spec fn hits_player(self, other: Player) -> bool {
        in_annulus(dist_sq(self.pos, other.pos), BULLET_SIZE as int, other.player_y_size as int)
    }

    /// Whether the bullet's box touches the wall.
    pub open spec fn hits_wall(self, wall: [i32; 4]) -> bool {
        box_overlaps_wall(self.pos, BULLET_SIZE as int, BULLET_SIZE as int, wall)
    }

    /// Creates a new live bullet.
    pub fn new(xpos: i32, ypos: i32, dir: Direction) -> (b: Self)
        ensures
            b == (Bullet { pos: Vector { x: xpos, y: ypos }, alive: true, dir }),
    {
        Bullet { pos: Vector::new(xpos, ypos), alive: true, dir }
    }

    /// Moves the bullet one tick along its heading.
    pub fn update(&mut self)
        ensures
            *final(self) == old(self).advanced(),
    {
        match self.pos.stepped(self.dir, BULLET_SPEED) {
            Some(p) => {
                self.pos = p;
            },
            None => {
                self.alive = false;
            },
        }
    }

    /// Checks for collision with an enemy, both taken as round bodies.
    pub fn collides_enemy(&self, other: &Enemy) -> (hit: bool)
        ensures
            hit == self.hits_enemy(*other),
    {
        self.pos.within_ring(&other.pos, BULLET_SIZE, other.size)
    }

    /// Checks for collision with the player, both taken as round bodies.
    pub fn collides_p(&self, other: &Player) -> (hit: bool)
        ensures
            hit == self.hits_player(*other),
    {
        self.pos.within_ring(&other.pos, BULLET_SIZE, other.player_y_size)
    }

    /// Checks for collision with a wall.
    pub fn collides_wall(&self, wall: &[i32; 4]) -> (hit: bool)
        ensures
            hit == self.hits_wall(*wall),
    {
        self.pos.overlaps_wall(BULLET_SIZE, BULLET_SIZE, wall)
    }
}

/// A bullet whose next position can be held moves along exactly one axis,
/// by exactly `BULLET_SPEED` units and in the sense of its heading; its
/// heading and its liveness stay.
pub proof fn lemma_advance_one_axis(b: Bullet)
    requires
        representable(step(b.pos, b.dir, BULLET_SPEED as int)),
    ensures
        b.advanced().dir == b.dir,
        b.advanced().alive == b.alive,
        b.dir == Direction::EAST ==> b.advanced().pos.x == b.pos.x + BULLET_SPEED
            && b.advanced().pos.y == b.pos.y,
        b.dir == Direction::WEST ==> b.advanced().pos.x == b.pos.x - BULLET_SPEED
            && b.advanced().pos.y == b.pos.y,
        b.dir == Direction::SOUTH ==> b.advanced().pos.y == b.pos.y + BULLET_SPEED
            && b.advanced().pos.x == b.pos.x,
        b.dir == Direction::NORTH ==> b.advanced().pos.y == b.pos.y - BULLET_SPEED
            && b.advanced().pos.x == b.pos.x,
{
}

/// Against an enemy of the default size, a bullet hits exactly when the
/// squared distance of the two centres is at least 307 and at most 506:
/// the whole numbers between 17.5 squared and 22.5 squared.
pub proof fn lemma_ring_of_default_enemy(b: Bullet, e: Enemy)
    requires
        e.size == ENEMY_SIZE,
    ensures
        b.hits_enemy(e) <==> 307 <= dist_sq(b.pos, e.pos) <= 506,
{
}

} // verus!
