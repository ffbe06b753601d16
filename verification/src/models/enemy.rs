use vstd::prelude::*;
use crate::game::Direction;
use crate::models::vector::{box_overlaps_wall, representable, step, Vector};
use crate::random::gen_range;

verus! {

pub const ENEMY_SIZE: i32 = 40;

pub const ENEMY_SPEED: i32 = 5;

/// An enemy draws from `[1, ENEMY_PROB_MOVEMENT)` each tick.
pub const ENEMY_PROB_MOVEMENT: u64 = 30;

/// The draw on which an enemy moves.
pub const ENEMY_MOVE_DRAW: u64 = 3;

/// Mutable settings for an enemy.
/// pos: position in the arena
/// alive: whether the enemy should be removed or not
/// size: size of the enemy
/// dir: direction the enemy is moving towards
#[derive(Clone, Copy, Debug, PartialEq, Eq, Structural)]
pub struct Enemy {
    pub pos: Vector,
    pub alive: bool,
    pub size: i32,
    pub dir: Direction,
}

/// The heading of an enemy that stands `dx` to the right of and `dy` below
/// its target: along the axis on which it is further away, horizontally
/// when both are equal.
pub open spec fn heading_toward(dx: int, dy: int) -> Direction {
    if vstd::math::abs(dx) >= vstd::math::abs(dy) {
        if dx > 0 {
            Direction::WEST
        } else {
            Direction::EAST
        }
    } else {
        if dy > 0 {
            Direction::NORTH
        } else {
            Direction::SOUTH
        }
    }
}

impl Enemy {
    /// The enemy turned towards the point `(playerx, playery)`.
    pub open spec fn turned_toward(self, playerx: int, playery: int) -> Enemy {
        Enemy { dir: heading_toward(self.pos.x - playerx, self.pos.y - playery), ..self }
    }

    /// The enemy after one step towards the point `(playerx, playery)`: it
    /// turns to the heading that leads there and moves `ENEMY_SPEED` units
    /// along it. Where that step would leave the coordinate range it only
    /// turns.
    pub open spec fn moved_toward(self, playerx: int, playery: int) -> Enemy {
        let turned = self.turned_toward(playerx, playery);
        let p = step(turned.pos, turned.dir, ENEMY_SPEED as int);
        if representable(p) {
            Enemy { pos: Vector { x: p.0 as i32, y: p.1 as i32 }, ..turned }
        } else {
            turned
        }
    }

    /// The enemy after a tick on which it drew `num`.
    pub open spec fn updated_on(self, num: u64, playerx: int, playery: int) -> Enemy {
        if num == ENEMY_MOVE_DRAW {
            self.moved_toward(playerx, playery)
        } else {
            self
        }
    }

    /// Whether the enemy's box touches the wall.
    pub open spec fn hits_wall(self, wall: [i32; 4]) -> bool {
        box_overlaps_wall(self.pos, ENEMY_SIZE as int, ENEMY_SIZE as int, wall)
    }

    /// Creates a new live enemy facing east.
    pub fn new(x: i32, y: i32) -> (e: Self)
        ensures
            e == (Enemy {
                pos: Vector { x, y },
                alive: true,
                size: ENEMY_SIZE,
                dir: Direction::EAST,
            }),
    {
        Enemy { pos: Vector::new(x, y), alive: true, size: ENEMY_SIZE, dir: Direction::EAST }
    }

    /// Randomly picks whether the enemy should move toward the player.
    /// Whatever is drawn, the enemy either stays as it is or takes one step.
    pub fn update(&mut self, playerx: i32, playery: i32)
        ensures
            *final(self) == *old(self) || *final(self) == old(self).moved_toward(
                playerx as int,
                playery as int,
            ),
    {
        let num: u64 = gen_range(1, ENEMY_PROB_MOVEMENT);
        self.update_on(num, playerx, playery);
    }

    /// The tick of an enemy that drew `num`: it moves toward the player on
    /// `ENEMY_MOVE_DRAW` and stays put on any other draw.
    pub fn update_on(&mut self, num: u64, playerx: i32, playery: i32)
        ensures
            *final(self) == old(self).updated_on(num, playerx as int, playery as int),
    {
        if num == ENEMY_MOVE_DRAW {
            self.move_toward_player(playerx, playery);
        }
    }

    /// Turns the enemy to face a target that lies `dx` to its left and `dy`
    /// above it.
    pub fn set_direction(&mut self, dx: i64, dy: i64)
        ensures
            *final(self) == (Enemy { dir: heading_toward(dx as int, dy as int), ..*old(self) }),
    {
        let ax: i128 = if dx < 0 { -(dx as i128) } else { dx as i128 };
        let ay: i128 = if dy < 0 { -(dy as i128) } else { dy as i128 };
        if ax >= ay {
            if dx > 0 {
                self.dir = Direction::WEST;
            } else {
                self.dir = Direction::EAST;
            }
        } else {
            if dy > 0 {
                self.dir = Direction::NORTH;
            } else {
                self.dir = Direction::SOUTH;
            }
        }
    }

    /// Handles the movement toward the player.
    pub fn move_toward_player(&mut self, playerx: i32, playery: i32)
        ensures
            *final(self) == old(self).moved_toward(playerx as int, playery as int),
    {
        let dx: i64 = self.pos.x as i64 - playerx as i64;
        let dy: i64 = self.pos.y as i64 - playery as i64;
        self.set_direction(dx, dy);
        match self.pos.stepped(self.dir, ENEMY_SPEED) {
            Some(p) => {
                self.pos = p;
            },
            None => {},
        }
    }

    /// Checks for enemy collision with a wall.
    pub fn collides(&self, wall: &[i32; 4]) -> (hit: bool)
        ensures
            hit == self.hits_wall(*wall),
    {
        self.pos.overlaps_wall(ENEMY_SIZE, ENEMY_SIZE, wall)
    }
}

} // verus!
