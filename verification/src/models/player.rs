use vstd::prelude::*;
use crate::game::Direction;
use crate::models::enemy::Enemy;
use crate::models::vector::{box_overlaps_wall, representable, step, Vector};
use crate::placement::{placement_ok, random_placement, usable};

verus! {

pub const PLAYER_X_SIZE: i32 = 20;

pub const PLAYER_Y_SIZE: i32 = 33;

pub const PLAYER_SPEED: i32 = 5;

/// How far a wall throws the player back.
pub const KNOCKBACK: i32 = 50;

/// The health a player starts with and is reset to.
pub const PLAYER_HEALTH: u32 = 3;

/// Mutable settings for the player.
/// pos: position in the arena
/// dir: direction the player is heading
/// health: starts with 3 health
/// is_moving: set while the player is moving
/// collided: if the player has collided
/// player_x_size and player_y_size are the player's width and height
#[derive(Clone, Copy, Debug, PartialEq, Eq, Structural)]
pub struct Player {
    pub pos: Vector,
    pub dir: Direction,
    pub health: u32,
    pub is_moving: bool,
    pub collided: bool,
    pub player_x_size: i32,
    pub player_y_size: i32,
}

impl Player {
    /// A player as it is created at `(x, y)`: three lives, facing east,
    /// standing still.
    pub open spec fn fresh(x: i32, y: i32) -> Player {
        Player {
            pos: Vector { x, y },
            dir: Direction::EAST,
            health: PLAYER_HEALTH,
            is_moving: false,
            collided: false,
            player_x_size: PLAYER_X_SIZE,
            player_y_size: PLAYER_Y_SIZE,
        }
    }

    /// The player after one frame: while moving, `PLAYER_SPEED` units
    /// further along its heading, unless that step would leave the
    /// coordinate range.
    pub open spec fn moved(self) -> Player {
        let p = step(self.pos, self.dir, PLAYER_SPEED as int);
        if self.is_moving && representable(p) {
            Player { pos: Vector { x: p.0 as i32, y: p.1 as i32 }, ..self }
        } else {
            self
        }
    }

    /// The player with one life less, and none less than zero.
    pub open spec fn hurt(self) -> Player {
        Player { health: if self.health > 0 { (self.health - 1) as u32 } else { 0 }, ..self }
    }

    /// The player thrown back by `KNOCKBACK` units against its heading,
    /// unless that would leave the coordinate range.
    pub open spec fn knocked_back(self) -> Player {
        let p = step(self.pos, self.dir.reversed(), KNOCKBACK as int);
        if representable(p) {
            Player { pos: Vector { x: p.0 as i32, y: p.1 as i32 }, ..self }
        } else {
            self
        }
    }

    /// Whether the player's box touches the wall.
    pub open spec fn hits_wall(self, wall: [i32; 4]) -> bool {
        box_overlaps_wall(self.pos, PLAYER_X_SIZE as int, PLAYER_Y_SIZE as int, wall)
    }

    /// Whether the player's box touches the enemy's box.
    pub open spec fn hits_enemy(self, enemy: Enemy) -> bool {
        self.pos.x + PLAYER_X_SIZE >= enemy.pos.x && enemy.pos.x + enemy.size >= self.pos.x
            && self.pos.y + PLAYER_Y_SIZE >= enemy.pos.y && enemy.pos.y + enemy.size
            >= self.pos.y
    }

    /// Creates a new player: three lives, facing east, standing still.
    pub fn new(x: i32, y: i32) -> (p: Self)
        ensures
            p == Player::fresh(x, y),
    {
        Player {
            pos: Vector::new(x, y),
            dir: Direction::EAST,
            health: PLAYER_HEALTH,
            is_moving: false,
            collided: false,
            player_x_size: PLAYER_X_SIZE,
            player_y_size: PLAYER_Y_SIZE,
        }
    }

    /// Resets the player position and health.
    pub fn reset(&mut self, x: i32, y: i32)
        ensures
            *final(self) == (Player {
                pos: Vector { x, y },
                health: PLAYER_HEALTH,
                ..*old(self)
            }),
    {
        self.pos.x = x;
        self.pos.y = y;
        self.health = PLAYER_HEALTH;
    }

    /// Moves the player along its heading while it is moving.
    pub fn handle_moving(&mut self)
        ensures
            *final(self) == old(self).moved(),
    {
        if self.is_moving {
            match self.pos.stepped(self.dir, PLAYER_SPEED) {
                Some(p) => {
                    self.pos = p;
                },
                None => {},
            }
        }
    }

    /// Takes one life from the player, down to zero and no further.
    pub fn lose_life(&mut self)
        ensures
            *final(self) == old(self).hurt(),
    {
        if self.health > 0 {
            self.health = self.health - 1;
        }
    }

    /// Throws the player back against its heading.
    pub fn knock_back(&mut self)
        ensures
            *final(self) == old(self).knocked_back(),
    {
        match self.pos.stepped(self.dir.opposite(), KNOCKBACK) {
            Some(p) => {
                self.pos = p;
            },
            None => {},
        }
    }

    /// Checks for collision with a wall.
    pub fn collides(&self, wall: &[i32; 4]) -> (hit: bool)
        ensures
            hit == self.hits_wall(*wall),
    {
        self.pos.overlaps_wall(PLAYER_X_SIZE, PLAYER_Y_SIZE, wall)
    }

    /// Checks for collision with an enemy.
    pub fn collides_enemy(&self, enemy: &Enemy) -> (hit: bool)
        ensures
            hit == self.hits_enemy(*enemy),
    {
        let collision_x: bool = self.pos.x as i64 + PLAYER_X_SIZE as i64 >= enemy.pos.x as i64
            && enemy.pos.x as i64 + enemy.size as i64 >= self.pos.x as i64;
        let collision_y: bool = self.pos.y as i64 + PLAYER_Y_SIZE as i64 >= enemy.pos.y as i64
            && enemy.pos.y as i64 + enemy.size as i64 >= self.pos.y as i64;
        collision_x && collision_y
    }

    /// Places the player randomly in the arena, only in places where walls
    /// do not exist. Whatever is drawn, the new position lies in a spawn
    /// region and outside the reserved zone, and nothing else changes.
    pub fn place_random(&mut self, dimensions: [i32; 2])
        requires
            usable(dimensions[0] as int, dimensions[1] as int),
        ensures
            placement_ok(final(self).pos, dimensions[0] as int, dimensions[1] as int),
            *final(self) == (Player { pos: final(self).pos, ..*old(self) }),
    {
        let p = random_placement(&dimensions);
        self.pos.x = p.x;
        self.pos.y = p.y;
    }
}

} // verus!
