use vstd::prelude::*;
use crate::combat::lose_health;
use crate::game::{add_score, Game, GameView, FINAL_LEVEL};
use crate::models::bullet::Bullet;
use crate::models::enemy::Enemy;
use crate::models::player::Player;
use crate::models::vector::Vector;
use crate::music::Cue;
use crate::placement::{placement_ok, random_placement, usable};
use crate::random::gen_range;

verus! {

/// The draw on which an enemy fires.
pub const ENEMY_FIRE_DRAW: u64 = 5;

/// What an enemy runs into after its move.
#[derive(Clone, Copy, Debug, PartialEq, Eq, Structural)]
pub enum Contact {
    Free,
    Wall,
    Player,
}

/// Whether the enemy touches one of the first `n` walls.
pub open spec fn enemy_meets_wall(e: Enemy, walls: Seq<[i32; 4]>, n: int) -> bool {
    exists|k: int| 0 <= k < n && e.hits_wall(#[trigger] walls[k])
}

/// Whether the player touches one of the first `n` walls.
pub open spec fn player_meets_wall(p: Player, walls: Seq<[i32; 4]>, n: int) -> bool {
    exists|k: int| 0 <= k < n && p.hits_wall(#[trigger] walls[k])
}

/// What an enemy runs into: a wall, if it touches any; else the player, if
/// it touches the player; else nothing. The walls come first.
pub open spec fn enemy_contact(e: Enemy, p: Player, walls: Seq<[i32; 4]>) -> Contact {
    if enemy_meets_wall(e, walls, walls.len() as int) {
        Contact::Wall
    } else if p.hits_enemy(e) {
        Contact::Player
    } else {
        Contact::Free
    }
}

/// The player after a wall hit that places it at `placed`: it has one life
/// less, is placed there, and is then thrown back against its heading.
pub open spec fn wall_struck(p: Player, placed: Vector) -> Player {
    (Player { pos: placed, ..p.hurt() }).knocked_back()
}

/// The player after its check against the first `k` walls, together with
/// the number of hits it took. The walls are gone through in their order.
/// Each wall that the player touches, as it stands when that wall's turn
/// comes, is a hit; hit number `n`, counted from 0, places the player at
/// `placed[n]`.
pub open spec fn wall_walk(p: Player, walls: Seq<[i32; 4]>, placed: Seq<Vector>, k: int) -> (
    Player,
    nat,
)
    decreases k,
{
    if k <= 0 {
        (p, 0nat)
    } else {
        let before = wall_walk(p, walls, placed, k - 1);
        if before.0.hits_wall(walls[k - 1]) {
            (wall_struck(before.0, placed[before.1 as int]), before.1 + 1)
        } else {
            before
        }
    }
}

/// Whether `e1` is `e0` after its tick: it stayed, or it took one step
/// towards the player.
pub open spec fn ai_stepped(e0: Enemy, e1: Enemy, p: Player) -> bool {
    e1 == e0 || e1 == e0.moved_toward(p.pos.x as int, p.pos.y as int)
}

impl GameView {
    /// The game after the enemy at `index` was told to fire. It fires only
    /// when a cue is due: a live bullet with its heading then starts at
    /// its position, and the cooldown starts again.
    pub open spec fn enemy_fired(self, index: int) -> GameView {
        if self.cue_due() {
            GameView {
                enemy_bullets: self.enemy_bullets.push(
                    Bullet {
                        pos: self.enemies[index].pos,
                        alive: true,
                        dir: self.enemies[index].dir,
                    },
                ),
                ..self.cued()
            }
        } else {
            self
        }
    }

    /// Whether `post` and `cue` may follow `self` when the enemies get
    /// their chance to shoot: nothing happens, or one of them fires.
    pub open spec fn enemy_shot_to(self, post: GameView, cue: Option<Cue>) -> bool {
        ||| post == self && cue.is_none()
        ||| exists|index: int|
            0 <= index < self.enemies.len() && post == #[trigger] self.enemy_fired(index) && cue
                == self.gated(Cue::EnemyFire)
    }

    /// The first `k` enemies took their tick and ran into nothing.
    pub open spec fn enemies_passed(self, post: GameView, k: int) -> bool {
        &&& post.enemies.len() == self.enemies.len()
        &&& forall|j: int|
            0 <= j < k ==> ai_stepped(self.enemies[j], #[trigger] post.enemies[j], self.player)
                && enemy_contact(post.enemies[j], self.player, self.walls) == Contact::Free
    }

    /// The enemies from `k` on are as they were.
    pub open spec fn enemies_kept(self, post: GameView, k: int) -> bool {
        &&& post.enemies.len() == self.enemies.len()
        &&& forall|j: int|
            k <= j < self.enemies.len() ==> #[trigger] post.enemies[j] == self.enemies[j]
    }

    /// The enemies' turn ended at enemy `k`, the first that ran into
    /// something after its tick. That enemy is dead. If it hit a wall, it
    /// counts as a kill. If it hit the player, the player loses a life and
    /// is placed anew. The enemies behind it had no turn.
    pub open spec fn enemy_update_stops(self, post: GameView, cue: Option<Cue>, k: int) -> bool {
        &&& 0 <= k < self.enemies.len()
        &&& self.enemies_passed(post, k)
        &&& self.enemies_kept(post, k + 1)
        &&& !post.enemies[k].alive
        &&& {
            let moved = Enemy { alive: self.enemies[k].alive, ..post.enemies[k] };
            &&& ai_stepped(self.enemies[k], moved, self.player)
            &&& match enemy_contact(moved, self.player, self.walls) {
                Contact::Free => false,
                Contact::Wall => {
                    &&& post == (GameView {
                        enemies: post.enemies,
                        score: add_score(self.score, 1),
                        ..self.cued()
                    })
                    &&& cue == self.gated(Cue::EnemyKilled)
                },
                Contact::Player => {
                    &&& post == (GameView {
                        enemies: post.enemies,
                        player: Player { pos: post.player.pos, ..self.player.hurt() },
                        ..self.cued()
                    })
                    &&& placement_ok(post.player.pos, self.width, self.height)
                    &&& cue == self.gated(Cue::PlayerHit)
                },
            }
        }
    }

    /// Whether `post` and `cue` may follow `self` on the enemies' turn:
    /// either every enemy took its tick and none ran into anything, or the
    /// turn ended at the first that did.
    pub open spec fn enemy_update_to(self, post: GameView, cue: Option<Cue>) -> bool {
        ||| {
            &&& self.enemies_passed(post, self.enemies.len() as int)
            &&& post == (GameView { enemies: post.enemies, ..self })
            &&& cue.is_none()
        }
        ||| exists|k: int| #[trigger] self.enemy_update_stops(post, cue, k)
    }

    /// The game after the player hit a wall and was placed at `placed`:
    /// the player is struck, and the hit asks for its cue.
    pub open spec fn wall_hit(self, placed: Vector) -> GameView {
        GameView { player: wall_struck(self.player, placed), ..self.cued() }
    }

    /// Whether `post` and `cue` follow `self` on a wall check whose hits
    /// placed the player at the points of `placed`, in that order: the
    /// player is as the walk through all walls leaves it, every point is
    /// one that placement may hand out, there is one point for each hit,
    /// and a check with a hit asked for its cue.
    pub open spec fn wall_walk_to(
        self,
        placed: Seq<Vector>,
        post: GameView,
        cue: Option<Cue>,
    ) -> bool {
        let end = wall_walk(self.player, self.walls, placed, self.walls.len() as int);
        &&& placed.len() == end.1
        &&& forall|i: int|
            0 <= i < placed.len() ==> placement_ok(#[trigger] placed[i], self.width, self.height)
        &&& post == (GameView {
            player: end.0,
            ..if end.1 > 0 {
                self.cued()
            } else {
                self
            }
        })
        &&& cue == if end.1 > 0 {
            self.gated(Cue::PlayerHit)
        } else {
            None
        }
    }

    /// Whether `post` and `cue` may follow `self` on the player's wall
    /// check: they follow for some points at which the hits placed the
    /// player. A life is lost once for each wall that the player touches
    /// when its turn comes, and for no other.
    pub open spec fn wall_update_to(self, post: GameView, cue: Option<Cue>) -> bool {
        exists|placed: Seq<Vector>| #[trigger] self.wall_walk_to(placed, post, cue)
    }
}

/// The walk through the first `k` walls reads only the points of the hits
/// it takes: a longer sequence that agrees on those gives the same walk.
pub proof fn lemma_wall_walk_prefix(
    p: Player,
    walls: Seq<[i32; 4]>,
    a: Seq<Vector>,
    b: Seq<Vector>,
    k: int,
)
    requires
        a.len() <= b.len(),
        forall|i: int| 0 <= i < a.len() ==> a[i] == b[i],
        wall_walk(p, walls, a, k).1 <= a.len(),
    ensures
        wall_walk(p, walls, b, k) == wall_walk(p, walls, a, k),
    decreases k,
{
    if k > 0 {
        lemma_wall_walk_prefix(p, walls, a, b, k - 1);
    }
}

/// What a walk through the first `k` walls leaves of the player: it took
/// at most `k` hits, and none exactly when the player touched none of
/// those walls, in which case it is as it was; each hit cost a life, down
/// to zero; heading, movement and size are as they were.
pub proof fn lemma_wall_walk_facts(p: Player, walls: Seq<[i32; 4]>, placed: Seq<Vector>, k: int)
    requires
        0 <= k <= walls.len(),
    ensures
        wall_walk(p, walls, placed, k).1 <= k,
        (wall_walk(p, walls, placed, k).1 == 0) == !player_meets_wall(p, walls, k),
        wall_walk(p, walls, placed, k).1 == 0 ==> wall_walk(p, walls, placed, k).0 == p,
        wall_walk(p, walls, placed, k).0 == (Player {
            pos: wall_walk(p, walls, placed, k).0.pos,
            health: lose_health(p.health, wall_walk(p, walls, placed, k).1),
            ..p
        }),
    decreases k,
{
    if k > 0 {
        lemma_wall_walk_facts(p, walls, placed, k - 1);
        let before = wall_walk(p, walls, placed, k - 1);
        if before.1 == 0 {
            assert(player_meets_wall(p, walls, k) == p.hits_wall(walls[k - 1]));
        } else {
            let m = choose|m: int| 0 <= m < k - 1 && p.hits_wall(#[trigger] walls[m]);
            assert(p.hits_wall(walls[m]));
        }
    }
}

/// A player that, once struck by the first wall it touches, touches no
/// wall any more is struck once: of the first `k` walls it is untouched
/// while it meets none, and struck once from the first that it meets.
pub proof fn lemma_wall_walk_once(p: Player, walls: Seq<[i32; 4]>, placed: Seq<Vector>, k: int)
    requires
        0 <= k <= walls.len(),
        !player_meets_wall(wall_struck(p, placed[0]), walls, walls.len() as int),
    ensures
        wall_walk(p, walls, placed, k) == if player_meets_wall(p, walls, k) {
            (wall_struck(p, placed[0]), 1nat)
        } else {
            (p, 0nat)
        },
    decreases k,
{
    if k > 0 {
        lemma_wall_walk_once(p, walls, placed, k - 1);
        let struck = wall_struck(p, placed[0]);
        if player_meets_wall(p, walls, k - 1) {
            let m = choose|m: int| 0 <= m < k - 1 && p.hits_wall(#[trigger] walls[m]);
            assert(p.hits_wall(walls[m]));
            assert(!struck.hits_wall(walls[k - 1]));
        } else {
            assert(player_meets_wall(p, walls, k) == p.hits_wall(walls[k - 1]));
        }
    }
}

/// A wall collision costs exactly one life: when the player touches a wall
/// and, placed anew and thrown back, touches none, the wall check is one
/// hit. The player has one life less and stands thrown back from where it
/// was placed; nothing else but the cooldown changes.
pub proof fn lemma_one_wall_one_life(
    g: GameView,
    placed: Seq<Vector>,
    post: GameView,
    cue: Option<Cue>,
)
    requires
        g.wall_walk_to(placed, post, cue),
        player_meets_wall(g.player, g.walls, g.walls.len() as int),
        !player_meets_wall(wall_struck(g.player, placed[0]), g.walls, g.walls.len() as int),
    ensures
        placed.len() == 1,
        post == g.wall_hit(placed[0]),
        post.player.health == g.player.hurt().health,
        post.player.dir == g.player.dir,
        cue == g.gated(Cue::PlayerHit),
{
    lemma_wall_walk_once(g.player, g.walls, placed, g.walls.len() as int);
}

/// A player that touches the last wall and none before it is hit exactly
/// once, whatever is drawn: it has one life less, and its heading, the
/// score, the level, the enemies and all bullets are as they were.
pub proof fn lemma_last_wall_one_life(g: GameView, post: GameView, cue: Option<Cue>)
    requires
        g.wall_update_to(post, cue),
        g.walls.len() > 0,
        g.player.hits_wall(g.walls[g.walls.len() - 1]),
        !player_meets_wall(g.player, g.walls, g.walls.len() - 1),
    ensures
        post.player.health == g.player.hurt().health,
        post.player.dir == g.player.dir,
        post == (GameView { player: post.player, ..g.cued() }),
        cue == g.gated(Cue::PlayerHit),
        exists|placed: Vector|
            placement_ok(placed, g.width, g.height) && post == #[trigger] g.wall_hit(placed),
{
    let placed = choose|placed: Seq<Vector>| #[trigger] g.wall_walk_to(placed, post, cue);
    lemma_wall_walk_facts(g.player, g.walls, placed, g.walls.len() - 1);
    assert(placement_ok(placed[0], g.width, g.height));
    assert(post == g.wall_hit(placed[0]));
}

/// The wall check changes nothing but the player and the cooldown, and
/// the player only in its position and its health, which does not rise.
pub proof fn lemma_wall_update_keeps(g: GameView, post: GameView, cue: Option<Cue>)
    requires
        g.wall_update_to(post, cue),
    ensures
        post == (GameView { player: post.player, fire_cooldown: post.fire_cooldown, ..g }),
        post.player == (Player {
            pos: post.player.pos,
            health: post.player.health,
            ..g.player
        }),
        post.player.health <= g.player.health,
{
    let placed = choose|placed: Seq<Vector>| #[trigger] g.wall_walk_to(placed, post, cue);
    lemma_wall_walk_facts(g.player, g.walls, placed, g.walls.len() as int);
}

/// The enemies' turn changes nothing but the enemies, the player, the
/// score and the cooldown: the score does not fall, and the player's
/// health does not rise.
pub proof fn lemma_enemy_update_keeps(g: GameView, post: GameView, cue: Option<Cue>)
    requires
        g.enemy_update_to(post, cue),
    ensures
        post == (GameView {
            enemies: post.enemies,
            player: post.player,
            score: post.score,
            fire_cooldown: post.fire_cooldown,
            ..g
        }),
        post.enemies.len() == g.enemies.len(),
        post.score >= g.score,
        post.player.health <= g.player.health,
{
    if !(g.enemies_passed(post, g.enemies.len() as int) && post == (GameView {
        enemies: post.enemies,
        ..g
    }) && cue.is_none()) {
        let k = choose|k: int| #[trigger] g.enemy_update_stops(post, cue, k);
        assert(g.enemy_update_stops(post, cue, k));
    }
}

/// The enemies' chance to shoot changes nothing but their bullets and the
/// cooldown.
pub proof fn lemma_enemy_shot_keeps(g: GameView, post: GameView, cue: Option<Cue>)
    requires
        g.enemy_shot_to(post, cue),
    ensures
        post == (GameView {
            enemy_bullets: post.enemy_bullets,
            fire_cooldown: post.fire_cooldown,
            ..g
        }),
{
}

/// Tells whether the enemy touches any of the walls.
pub fn enemy_touches_wall(enemy: &Enemy, walls: &Vec<[i32; 4]>) -> (hit: bool)
    ensures
        hit == enemy_meets_wall(*enemy, walls@, walls@.len() as int),
{
    let mut hit = false;
    let mut k: usize = 0;
    while k < walls.len()
        invariant
            k <= walls.len(),
            hit == enemy_meets_wall(*enemy, walls@, k as int),
        decreases walls.len() - k,
    {
        if enemy.collides(&walls[k]) {
            hit = true;
        }
        k = k + 1;
    }
    hit
}

/// Tells what an enemy runs into: the walls are checked first, then the
/// player.
pub fn contact(enemy: &Enemy, player: &Player, walls: &Vec<[i32; 4]>) -> (c: Contact)
    ensures
        c == enemy_contact(*enemy, *player, walls@),
{
    if enemy_touches_wall(enemy, walls) {
        Contact::Wall
    } else if player.collides_enemy(enemy) {
        Contact::Player
    } else {
        Contact::Free
    }
}

impl Game {
    /// Lets the enemy at `index` fire, if a cue is due.
    pub fn enemy_fire(&mut self, index: usize) -> (cue: Option<Cue>)
        requires
            index < old(self)@.enemies.len(),
        ensures
            final(self)@ == old(self)@.enemy_fired(index as int),
            cue == old(self)@.gated(Cue::EnemyFire),
    {
        if self.fire_cooldown == 0 {
            let cue = self.trigger(Cue::EnemyFire);
            let shooter = self.enemies[index];
            self.enemy_bullets.push(Bullet::new(shooter.pos.x, shooter.pos.y, shooter.dir));
            cue
        } else {
            None
        }
    }

    /// Gives the enemies their chance to shoot: while there are enemies, a
    /// number is drawn from `[1, 100 - 3 * level)`, and on
    /// `ENEMY_FIRE_DRAW` an enemy is drawn and fires.
    pub fn enemy_chance_shoot(&mut self) -> (cue: Option<Cue>)
        requires
            old(self)@.level <= FINAL_LEVEL,
        ensures
            old(self)@.enemy_shot_to(final(self)@, cue),
    {
        if self.enemies.len() != 0 {
            let chance_shot: u64 = gen_range(1, 100 - (3 * self.level as u64));
            return self.enemy_shoot_on(chance_shot);
        }
        None
    }

    /// The enemies' chance to shoot once `chance_shot` was drawn: on
    /// `ENEMY_FIRE_DRAW`, with an enemy there, one of the enemies is drawn
    /// and told to fire; on any other draw nothing happens.
    pub fn enemy_shoot_on(&mut self, chance_shot: u64) -> (cue: Option<Cue>)
        ensures
            old(self)@.enemy_shot_on(chance_shot, final(self)@, cue),
    {
        if chance_shot == ENEMY_FIRE_DRAW && self.enemies.len() != 0 {
            let index: u64 = gen_range(0, self.enemies.len() as u64);
            self.enemy_fire(index as usize)
        } else {
            None
        }
    }

    /// Gives each enemy its tick, in order, until one runs into a wall or
    /// the player.
    pub fn enemy_update(&mut self) -> (cue: Option<Cue>)
        requires
            usable(old(self)@.width, old(self)@.height),
        ensures
            old(self)@.enemy_update_to(final(self)@, cue),
    {
        let ghost pre = self@;
        let mut i: usize = 0;
        while i < self.enemies.len()
            invariant
                i <= self.enemies.len(),
                pre == old(self)@,
                usable(pre.width, pre.height),
                pre.enemies_passed(self@, i as int),
                pre.enemies_kept(self@, i as int),
                self@ == (GameView { enemies: self@.enemies, ..pre }),
            decreases self.enemies.len() - i,
        {
            let mut enemy = self.enemies[i];
            enemy.update(self.player.pos.x, self.player.pos.y);
            match contact(&enemy, &self.player, &self.walls) {
                Contact::Wall => {
                    enemy.alive = false;
                    self.enemies[i] = enemy;
                    let cue = self.trigger(Cue::EnemyKilled);
                    self.award_kill();
                    assert(pre.enemy_update_stops(self@, cue, i as int));
                    return cue;
                },
                Contact::Player => {
                    enemy.alive = false;
                    self.enemies[i] = enemy;
                    self.player.lose_life();
                    self.player.place_random(self.dimensions);
                    let cue = self.trigger(Cue::PlayerHit);
                    assert(pre.enemy_update_stops(self@, cue, i as int));
                    return cue;
                },
                Contact::Free => {
                    self.enemies[i] = enemy;
                },
            }
            i = i + 1;
        }
        None
    }

    /// Resolves one hit of the player on a wall, with `placed` the point
    /// drawn for it: the player loses a life, is placed there and thrown
    /// back against its heading, and the hit asks for its cue.
    pub fn wall_hit(&mut self, placed: Vector) -> (cue: Option<Cue>)
        ensures
            final(self)@ == old(self)@.wall_hit(placed),
            cue == old(self)@.gated(Cue::PlayerHit),
    {
        self.player.lose_life();
        self.player.pos = placed;
        let cue = self.trigger(Cue::PlayerHit);
        self.player.knock_back();
        cue
    }

    /// Checks the player against each wall, in order. A wall that the
    /// player touches costs a life, has the player placed anew and then
    /// thrown back against its heading; the walls behind it are checked
    /// against the player where it then stands.
    pub fn wall_update(&mut self) -> (cue: Option<Cue>)
        requires
            usable(old(self)@.width, old(self)@.height),
        ensures
            old(self)@.wall_update_to(final(self)@, cue),
            final(self)@ == (GameView {
                player: final(self)@.player,
                fire_cooldown: final(self)@.fire_cooldown,
                ..old(self)@
            }),
            !player_meets_wall(old(self)@.player, old(self)@.walls, old(self)@.walls.len() as int)
                ==> final(self)@ == old(self)@ && cue.is_none(),
            player_meets_wall(old(self)@.player, old(self)@.walls, old(self)@.walls.len() as int)
                ==> final(self)@.player.health <= old(self)@.player.hurt().health && cue == old(
                self,
            )@.gated(Cue::PlayerHit) && final(self)@.fire_cooldown == old(self)@.cued().fire_cooldown,
    {
        let ghost pre = self@;
        let ghost mut placed: Seq<Vector> = Seq::empty();
        let mut cue: Option<Cue> = None;
        let mut k: usize = 0;
        while k < self.walls.len()
            invariant
                k <= self.walls.len(),
                usable(pre.width, pre.height),
                self@.walls == pre.walls,
                wall_walk(pre.player, pre.walls, placed, k as int) == (self.player, placed.len()),
                forall|i: int|
                    0 <= i < placed.len() ==> placement_ok(
                        #[trigger] placed[i],
                        pre.width,
                        pre.height,
                    ),
                self@ == (GameView {
                    player: self.player,
                    ..if placed.len() > 0 {
                        pre.cued()
                    } else {
                        pre
                    }
                }),
                cue == if placed.len() > 0 {
                    pre.gated(Cue::PlayerHit)
                } else {
                    None
                },
            decreases self.walls.len() - k,
        {
            if self.player.collides(&self.walls[k]) {
                let p = random_placement(&self.dimensions);
                proof {
                    lemma_wall_walk_prefix(pre.player, pre.walls, placed, placed.push(p), k as int);
                    placed = placed.push(p);
                }
                match self.wall_hit(p) {
                    Some(c) => {
                        cue = Some(c);
                    },
                    None => {},
                }
            }
            k = k + 1;
        }
        proof {
            lemma_wall_walk_facts(pre.player, pre.walls, placed, pre.walls.len() as int);
            assert(pre.wall_walk_to(placed, self@, cue));
        }
        cue
    }
}

impl GameView {
    /// Whether `post` and `cue` may follow `self` when the enemies get
    /// their chance to shoot and `chance` was drawn: on `ENEMY_FIRE_DRAW`,
    /// with an enemy there, one of the enemies is told to fire; on any
    /// other draw, and without enemies, nothing happens.
    pub open spec fn enemy_shot_on(self, chance: u64, post: GameView, cue: Option<Cue>) -> bool {
        if chance == ENEMY_FIRE_DRAW && self.enemies.len() > 0 {
            exists|index: int|
                0 <= index < self.enemies.len() && post == #[trigger] self.enemy_fired(index)
                    && cue == self.gated(Cue::EnemyFire)
        } else {
            post == self && cue.is_none()
        }
    }
}

} // verus!
