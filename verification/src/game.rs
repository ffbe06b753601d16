use vstd::prelude::*;
use crate::models::bullet::Bullet;
use crate::models::enemy::{Enemy, ENEMY_SIZE};
use crate::models::player::{Player, PLAYER_HEALTH};
use crate::models::vector::Vector;
use crate::music::Cue;
use crate::placement::{arena_fits, placement_ok, random_placement, usable, MAX_ARENA};

verus! {

/// Time, in microseconds, for which no further cue is triggered after one.
pub const FIRE_COOLDOWN: u64 = 1_500_000;

/// Simulation ticks per second.
pub const FPS: u64 = 60;

/// What a killed enemy adds to the score.
pub const KILL_SCORE: u32 = 50;

/// The level at which the game is won.
pub const FINAL_LEVEL: u32 = 5;

/// The column in which the player starts.
pub const START_X: i32 = 75;

/// The direction that a game object may point in.
#[derive(Clone, Copy, Debug, PartialEq, Eq, Structural)]
pub enum Direction {
    WEST,
    NORTH,
    EAST,
    SOUTH,
}

impl Direction {
    pub open spec fn reversed(self) -> Direction {
        match self {
            Direction::WEST => Direction::EAST,
            Direction::NORTH => Direction::SOUTH,
            Direction::EAST => Direction::WEST,
            Direction::SOUTH => Direction::NORTH,
        }
    }

    /// The direction that points the other way.
    pub fn opposite(self) -> (d: Direction)
        ensures
            d == self.reversed(),
    {
        match self {
            Direction::WEST => Direction::EAST,
            Direction::NORTH => Direction::SOUTH,
            Direction::EAST => Direction::WEST,
            Direction::SOUTH => Direction::NORTH,
        }
    }
}

/// The keys that the game reacts to; every other key or button is `Other`.
#[derive(Clone, Copy, Debug, PartialEq, Eq, Structural)]
pub enum Key {
    Up,
    Down,
    Left,
    Right,
    Space,
    R,
    Other,
}

/// Where a game stands: it runs until it is lost or won.
#[derive(Clone, Copy, Debug, PartialEq, Eq, Structural)]
pub enum Status {
    Running,
    GameOver,
    Won,
}

/// Contains the states and objects of a game.
pub struct Game {
    pub player: Player,
    pub player_bullets: Vec<Bullet>,
    pub enemy_bullets: Vec<Bullet>,
    pub enemies: Vec<Enemy>,
    pub dimensions: [i32; 2],
    pub game_over: bool,
    pub score: u32,
    pub level: u32,
    pub fire_cooldown: u64,
    /// Each wall is `[x0, y0, x1, y1]`, two opposite corners of a rectangle.
    pub walls: Vec<[i32; 4]>,
    pub new_level: bool,
    pub won: bool,
}

/// A game as a mathematical value.
pub struct GameView {
    pub player: Player,
    pub player_bullets: Seq<Bullet>,
    pub enemy_bullets: Seq<Bullet>,
    pub enemies: Seq<Enemy>,
    pub width: int,
    pub height: int,
    pub game_over: bool,
    pub score: u32,
    pub level: u32,
    pub fire_cooldown: u64,
    pub walls: Seq<[i32; 4]>,
    pub new_level: bool,
    pub won: bool,
}

impl View for Game {
    type V = GameView;

    open spec fn view(&self) -> GameView {
        GameView {
            player: self.player,
            player_bullets: self.player_bullets@,
            enemy_bullets: self.enemy_bullets@,
            enemies: self.enemies@,
            width: self.dimensions[0] as int,
            height: self.dimensions[1] as int,
            game_over: self.game_over,
            score: self.score,
            level: self.level,
            fire_cooldown: self.fire_cooldown,
            walls: self.walls@,
            new_level: self.new_level,
            won: self.won,
        }
    }
}

/// The score after `kills` more kills: the counter stops at its largest
/// value.
pub open spec fn add_score(score: u32, kills: nat) -> u32 {
    if score + KILL_SCORE * kills <= u32::MAX {
        (score + KILL_SCORE * kills) as u32
    } else {
        u32::MAX
    }
}

/// How many enemies a level starts with.
pub open spec fn wave_size(level: u32) -> int {
    4 + 2 * level
}

/// An enemy as it is spawned: alive, facing east, of the default size, at
/// a point that placement may hand out.
pub open spec fn spawned(e: Enemy, w: int, h: int) -> bool {
    e == (Enemy { pos: e.pos, alive: true, size: ENEMY_SIZE, dir: Direction::EAST })
        && placement_ok(e.pos, w, h)
}

/// A sequence of `n` spawned enemies.
pub open spec fn is_wave(wave: Seq<Enemy>, n: int, w: int, h: int) -> bool {
    wave.len() == n && forall|i: int| 0 <= i < wave.len() ==> spawned(#[trigger] wave[i], w, h)
}

/// The nine walls of a level in an arena of `w` by `h` units: six border
/// pieces that leave a gap at the top and at the bottom, then the two
/// inner uprights and the bar between them.
pub open spec fn level_walls(w: int, h: int) -> Seq<[i32; 4]> {
    seq![
        [5, 5, 30, (h - 75) as i32],
        [30, 5, (w / 2 - 125) as i32, 30],
        [(w / 2 + 125) as i32, 5, (w - 5) as i32, 30],
        [(w - 30) as i32, 25, (w - 5) as i32, (h - 75) as i32],
        [25, (h - 100) as i32, (w / 2 - 125) as i32, (h - 75) as i32],
        [(w / 2 + 125) as i32, (h - 100) as i32, (w - 5) as i32, (h - 75) as i32],
        [(w / 4) as i32, (h / 4) as i32, (w / 4 + 25) as i32, ((h / 4) * 3 - 75) as i32],
        [((w / 4) * 3) as i32, (h / 4) as i32, ((w / 4) * 3 + 25) as i32, ((h / 4) * 3 - 75) as i32],
        [(w / 4 + 25) as i32, (h / 2 - 50) as i32, ((w / 4) * 3) as i32, (h / 2 - 25) as i32],
    ]
}

impl GameView {
    /// What holds of a game between any two ticks: the arena can be laid
    /// out, the level is between 1 and the final one, the final level is
    /// only reached by winning, a game is not both lost and won, and no
    /// new level is pending.
    pub open spec fn wf(self) -> bool {
        &&& arena_fits(self.width, self.height)
        &&& 1 <= self.level <= FINAL_LEVEL
        &&& self.level == FINAL_LEVEL ==> self.won
        &&& !(self.game_over && self.won)
        &&& !self.new_level
    }

    /// A game that is lost or won no longer advances.
    pub open spec fn frozen(self) -> bool {
        self.game_over || self.won
    }

    /// Where the game stands.
    pub open spec fn status(self) -> Status {
        if self.game_over {
            Status::GameOver
        } else if self.won {
            Status::Won
        } else {
            Status::Running
        }
    }

    /// Whether a cue asked for now is triggered.
    pub open spec fn cue_due(self) -> bool {
        self.fire_cooldown == 0
    }

    /// The game after a cue was asked for: a cue that is due starts the
    /// cooldown.
    pub open spec fn cued(self) -> GameView {
        GameView {
            fire_cooldown: if self.cue_due() { FIRE_COOLDOWN } else { self.fire_cooldown },
            ..self
        }
    }

    /// What is triggered when `cue` is asked for.
    pub open spec fn gated(self, cue: Cue) -> Option<Cue> {
        if self.cue_due() {
            Some(cue)
        } else {
            None
        }
    }

    /// The game after the player turned to `dir` and started moving.
    pub open spec fn headed(self, dir: Direction) -> GameView {
        GameView { player: Player { is_moving: true, dir, ..self.player }, ..self }
    }

    /// The game after the player stopped.
    pub open spec fn halted(self) -> GameView {
        GameView { player: Player { is_moving: false, ..self.player }, ..self }
    }

    /// The game after the player fired: the player stops, and a live bullet
    /// with the player's heading starts at the player's position. The shot
    /// itself is not held back by the cooldown, only its cue.
    pub open spec fn fired(self) -> GameView {
        GameView {
            player_bullets: self.player_bullets.push(
                Bullet { pos: self.player.pos, alive: true, dir: self.player.dir },
            ),
            ..self.halted().cued()
        }
    }

    /// Whether the player stands in the exit at the top centre of the arena
    /// with no enemy left.
    pub open spec fn at_exit(self) -> bool {
        &&& self.player.pos.x > self.width / 2 - 125
        &&& self.player.pos.x < self.width / 2 + 125
        &&& self.player.pos.y > 5
        &&& self.player.pos.y < 30
        &&& self.enemies.len() == 0
    }

    /// The game after the exit was checked.
    pub open spec fn win_checked(self) -> GameView {
        if self.at_exit() {
            GameView { level: (self.level + 1) as u32, new_level: true, ..self }
        } else {
            self
        }
    }

    /// The game after the loss check: a player without health has lost.
    pub open spec fn loss_checked(self) -> GameView {
        if self.player.health == 0 {
            GameView { game_over: true, ..self.cued() }
        } else {
            self
        }
    }

    /// Whether `post` is `self` with a wave of enemies for the current
    /// level added behind those already there.
    pub open spec fn wave_added(self, post: GameView) -> bool {
        &&& post == (GameView { enemies: post.enemies, ..self })
        &&& post.enemies.len() == self.enemies.len() + wave_size(self.level)
        &&& post.enemies.subrange(0, self.enemies.len() as int) == self.enemies
        &&& is_wave(
            post.enemies.subrange(self.enemies.len() as int, post.enemies.len() as int),
            wave_size(self.level),
            self.width,
            self.height,
        )
    }

    /// The game put back to its start, before the first wave is spawned:
    /// level 1, no score, neither lost nor won, the player at its start
    /// with full health, no bullet in flight and no enemy. The walls and
    /// the cooldown stay.
    pub open spec fn restarted(self) -> GameView {
        GameView {
            level: 1,
            score: 0,
            won: false,
            game_over: false,
            player: Player {
                pos: Vector { x: START_X, y: (self.height / 2) as i32 },
                health: PLAYER_HEALTH,
                ..self.player
            },
            player_bullets: Seq::empty(),
            enemy_bullets: Seq::empty(),
            enemies: Seq::empty(),
            ..self
        }
    }

    /// Whether `post` may follow `self` on a hard reset.
    pub open spec fn hard_reset_to(self, post: GameView) -> bool {
        self.restarted().wave_added(post)
    }

    /// Whether `post` and `cue` may follow `self` on the given key event.
    /// While the game runs, a pressed arrow key turns the player and sets
    /// it moving, space fires, and R resets. Any release, and any event on
    /// a frozen game, stops the player; R resets there too.
    pub open spec fn input_to(self, key: Key, is_press: bool, post: GameView, cue: Option<Cue>) -> bool {
        if is_press && !self.frozen() {
            match key {
                Key::Up => post == self.headed(Direction::NORTH) && cue.is_none(),
                Key::Down => post == self.headed(Direction::SOUTH) && cue.is_none(),
                Key::Left => post == self.headed(Direction::WEST) && cue.is_none(),
                Key::Right => post == self.headed(Direction::EAST) && cue.is_none(),
                Key::Space => post == self.fired() && cue == self.gated(Cue::PlayerFire),
                Key::R => self.hard_reset_to(post) && cue.is_none(),
                Key::Other => post == self && cue.is_none(),
            }
        } else {
            match key {
                Key::R => self.halted().hard_reset_to(post) && cue.is_none(),
                _ => post == self.halted() && cue.is_none(),
            }
        }
    }
}

impl Game {
    /// A new game at level 1 in an arena of the given size: the player at
    /// its start, no walls, no enemies, nothing in flight.
    pub fn new(width: i32, height: i32) -> (g: Self)
        requires
            arena_fits(width as int, height as int),
        ensures
            g@ == (GameView {
                player: Player::fresh(START_X, (height / 2) as i32),
                player_bullets: Seq::empty(),
                enemy_bullets: Seq::empty(),
                enemies: Seq::empty(),
                width: width as int,
                height: height as int,
                game_over: false,
                score: 0,
                level: 1,
                fire_cooldown: 0,
                walls: Seq::empty(),
                new_level: false,
                won: false,
            }),
            g@.wf(),
    {
        Game {
            player: Player::new(START_X, height / 2),
            player_bullets: Vec::<Bullet>::new(),
            enemy_bullets: Vec::<Bullet>::new(),
            dimensions: [width, height],
            game_over: false,
            enemies: Vec::new(),
            score: 0,
            level: 1,
            fire_cooldown: 0,
            walls: Vec::new(),
            new_level: false,
            won: false,
        }
    }

    /// Tells whether the game is well formed.
    pub fn is_well_formed(&self) -> (ok: bool)
        ensures
            ok == self@.wf(),
    {
        0 <= self.dimensions[0] && self.dimensions[0] <= MAX_ARENA && 0 <= self.dimensions[1]
            && self.dimensions[1] <= MAX_ARENA && 1 <= self.level && self.level <= FINAL_LEVEL
            && (self.level != FINAL_LEVEL || self.won) && !(self.game_over && self.won)
            && !self.new_level
    }

    /// Tells where the game stands.
    pub fn status(&self) -> (s: Status)
        ensures
            s == self@.status(),
            (s == Status::Running) == !self@.frozen(),
    {
        if self.game_over {
            Status::GameOver
        } else if self.won {
            Status::Won
        } else {
            Status::Running
        }
    }

    /// Tells whether the game is lost or won.
    pub fn is_frozen(&self) -> (frozen: bool)
        ensures
            frozen == self@.frozen(),
    {
        self.game_over || self.won
    }

    /// Computes the walls of the level from the arena's size and adds them.
    pub fn make_level_borders(&mut self)
        requires
            arena_fits(old(self)@.width, old(self)@.height),
        ensures
            final(self)@ == (GameView {
                walls: old(self)@.walls + level_walls(old(self)@.width, old(self)@.height),
                ..old(self)@
            }),
    {
        let w: i32 = self.dimensions[0];
        let h: i32 = self.dimensions[1];
        let half_width: i32 = w / 2;
        let half_height: i32 = h / 2;
        let quarter_width: i32 = w / 4;
        let quarter_height: i32 = h / 4;

        let left_vertical = [5, 5, 30, h - 75];
        let left_top = [30, 5, half_width - 125, 30];
        let right_top = [half_width + 125, 5, w - 5, 30];
        let right_vertical = [w - 30, 25, w - 5, h - 75];
        let left_bottom = [25, h - 100, half_width - 125, h - 75];
        let right_bottom = [half_width + 125, h - 100, w - 5, h - 75];
        let middle_top_vert = [
            quarter_width,
            quarter_height,
            quarter_width + 25,
            quarter_height * 3 - 75,
        ];
        let middle_right_vert = [
            quarter_width * 3,
            quarter_height,
            quarter_width * 3 + 25,
            quarter_height * 3 - 75,
        ];
        let middle_middle = [
            quarter_width + 25,
            half_height - 50,
            quarter_width * 3,
            half_height - 25,
        ];

        self.add_walls(
            left_vertical,
            left_top,
            right_top,
            right_vertical,
            left_bottom,
            right_bottom,
            middle_top_vert,
            middle_right_vert,
            middle_middle,
        );
    }

    /// Adds nine walls, in the order given.
    pub fn add_walls(
        &mut self,
        lf: [i32; 4],
        lt: [i32; 4],
        rt: [i32; 4],
        rv: [i32; 4],
        lb: [i32; 4],
        rb: [i32; 4],
        mtv: [i32; 4],
        mrv: [i32; 4],
        mm: [i32; 4],
    )
        ensures
            final(self)@ == (GameView {
                walls: old(self)@.walls + seq![lf, lt, rt, rv, lb, rb, mtv, mrv, mm],
                ..old(self)@
            }),
    {
        self.walls.push(lf);
        self.walls.push(lt);
        self.walls.push(rt);
        self.walls.push(rv);
        self.walls.push(lb);
        self.walls.push(rb);
        self.walls.push(mtv);
        self.walls.push(mrv);
        self.walls.push(mm);
        assert(self.walls@ =~= old(self).walls@ + seq![lf, lt, rt, rv, lb, rb, mtv, mrv, mm]);
    }

    /// Asks for a cue. It is triggered, and handed back, only when the
    /// cooldown has run out; the cooldown then starts again.
    pub fn trigger(&mut self, cue: Cue) -> (due: Option<Cue>)
        ensures
            final(self)@ == old(self)@.cued(),
            due == old(self)@.gated(cue),
    {
        if self.fire_cooldown == 0 {
            self.fire_cooldown = FIRE_COOLDOWN;
            Some(cue)
        } else {
            None
        }
    }

    /// Turns the player to `heading` and sets it moving.
    pub fn set_heading_and_move(&mut self, heading: Direction)
        ensures
            final(self)@ == old(self)@.headed(heading),
    {
        self.player.is_moving = true;
        self.player.dir = heading;
    }

    /// Stops the player.
    pub fn clear_move_intent(&mut self)
        ensures
            final(self)@ == old(self)@.halted(),
    {
        self.player.is_moving = false;
    }

    /// Fires a bullet from the player's position along its heading.
    pub fn fire(&mut self) -> (cue: Option<Cue>)
        ensures
            final(self)@ == old(self)@.fired(),
            cue == old(self)@.gated(Cue::PlayerFire),
    {
        self.player.is_moving = false;
        let cue = self.trigger(Cue::PlayerFire);
        self.player_bullets.push(Bullet::new(self.player.pos.x, self.player.pos.y, self.player.dir));
        cue
    }

    /// Moves the player for one frame. A frozen game does not move it.
    pub fn move_player(&mut self)
        ensures
            final(self)@ == (GameView {
                player: if old(self)@.frozen() {
                    old(self)@.player
                } else {
                    old(self)@.player.moved()
                },
                ..old(self)@
            }),
    {
        if !self.game_over && !self.won {
            self.player.handle_moving();
        }
    }

    /// Places a new enemy at a random point of the arena. Whatever is
    /// drawn, the enemy is added behind the others, as it is spawned.
    pub fn gameobject_random_placement(&mut self)
        requires
            usable(old(self)@.width, old(self)@.height),
        ensures
            final(self)@ == (GameView {
                enemies: old(self)@.enemies.push(final(self)@.enemies.last()),
                ..old(self)@
            }),
            spawned(final(self)@.enemies.last(), old(self)@.width, old(self)@.height),
    {
        let p = random_placement(&self.dimensions);
        self.enemies.push(Enemy::new(p.x, p.y));
    }

    /// Spawns the enemies of the current level: `4 + 2 * level` of them.
    pub fn spawn_wave(&mut self)
        requires
            usable(old(self)@.width, old(self)@.height),
            old(self)@.level <= FINAL_LEVEL,
        ensures
            old(self)@.wave_added(final(self)@),
    {
        let num_of_enemies: u32 = 4 + (2 * self.level);
        let ghost pre = self@;
        let mut i: u32 = 0;
        while i < num_of_enemies
            invariant
                i <= num_of_enemies,
                usable(pre.width, pre.height),
                self@ == (GameView { enemies: self@.enemies, ..pre }),
                self@.enemies.len() == pre.enemies.len() + i,
                self@.enemies.subrange(0, pre.enemies.len() as int) == pre.enemies,
                forall|k: int|
                    pre.enemies.len() <= k < self@.enemies.len() ==> spawned(
                        #[trigger] self@.enemies[k],
                        pre.width,
                        pre.height,
                    ),
            decreases num_of_enemies - i,
        {
            self.gameobject_random_placement();
            i = i + 1;
        }
    }

    /// Starts the game over from level 1, whatever its state: score and
    /// level are reset, the player goes back to its start with full
    /// health, all bullets and all enemies are removed, and the first
    /// wave is spawned.
    pub fn hard_reset(&mut self)
        requires
            usable(old(self)@.width, old(self)@.height),
        ensures
            old(self)@.hard_reset_to(final(self)@),
            !final(self)@.frozen(),
            !old(self)@.new_level ==> final(self)@.wf(),
    {
        self.level = 1;
        self.score = 0;
        self.won = false;
        self.player.reset(START_X, self.dimensions[1] / 2);
        self.player_bullets.clear();
        self.enemy_bullets.clear();
        self.enemies.clear();
        self.game_over = false;
        self.spawn_wave();
    }

    /// Checks whether the player has lost its last life; if so, the game is
    /// over and the last cue is asked for.
    pub fn check_loss(&mut self) -> (cue: Option<Cue>)
        ensures
            final(self)@ == old(self)@.loss_checked(),
            cue == if old(self)@.player.health == 0 {
                old(self)@.gated(Cue::PlayerDefeated)
            } else {
                None
            },
    {
        if self.player.health == 0 {
            let cue = self.trigger(Cue::PlayerDefeated);
            self.game_over = true;
            cue
        } else {
            None
        }
    }

    /// Checks whether the player has reached the exit with no enemy left:
    /// strictly inside the rectangle at the top centre of the arena, with
    /// an empty list of enemies. If so, the level goes up by one and a new
    /// level is due; if not, nothing changes.
    pub fn check_win(&mut self)
        requires
            arena_fits(old(self)@.width, old(self)@.height),
            old(self)@.level < u32::MAX,
        ensures
            final(self)@ == old(self)@.win_checked(),
            old(self)@.at_exit() ==> final(self)@ == (GameView {
                level: (old(self)@.level + 1) as u32,
                new_level: true,
                ..old(self)@
            }),
            !old(self)@.at_exit() ==> final(self)@ == old(self)@,
    {
        if self.player.pos.x > self.dimensions[0] / 2 - 125 && self.player.pos.x
            < self.dimensions[0] / 2 + 125 && self.player.pos.y > 5 && self.player.pos.y < 30
            && self.enemies.len() == 0 {
            self.level += 1;
            self.new_level = true;
        }
    }

    /// Handles a key event and hands back the cue it triggers, if any.
    pub fn input(&mut self, key: Key, is_press: bool) -> (cue: Option<Cue>)
        requires
            usable(old(self)@.width, old(self)@.height),
        ensures
            old(self)@.input_to(key, is_press, final(self)@, cue),
            old(self)@.wf() ==> final(self)@.wf(),
    {
        if is_press && !self.game_over && !self.won {
            match key {
                Key::Up => {
                    self.set_heading_and_move(Direction::NORTH);
                    None
                },
                Key::Down => {
                    self.set_heading_and_move(Direction::SOUTH);
                    None
                },
                Key::Left => {
                    self.set_heading_and_move(Direction::WEST);
                    None
                },
                Key::Right => {
                    self.set_heading_and_move(Direction::EAST);
                    None
                },
                Key::Space => self.fire(),
                Key::R => {
                    self.hard_reset();
                    None
                },
                Key::Other => None,
            }
        } else {
            self.clear_move_intent();
            match key {
                Key::R => {
                    self.hard_reset();
                    None
                },
                _ => None,
            }
        }
    }
}

} // verus!
