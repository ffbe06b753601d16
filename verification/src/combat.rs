use vstd::prelude::*;
use crate::game::{add_score, Game, GameView, KILL_SCORE};
use crate::models::bullet::Bullet;
use crate::models::enemy::Enemy;
use crate::models::player::Player;
use crate::music::Cue;

verus! {

/// Whether a live bullet, once advanced, hits the enemy.
pub open spec fn strikes(b: Bullet, e: Enemy) -> bool {
    b.alive && b.advanced().hits_enemy(e)
}

/// How many of the first `n` enemies the bullet strikes.
pub open spec fn strikes_among(b: Bullet, enemies: Seq<Enemy>, n: int) -> nat
    decreases n,
{
    if n <= 0 {
        0
    } else {
        strikes_among(b, enemies, n - 1) + if strikes(b, enemies[n - 1]) {
            1nat
        } else {
            0nat
        }
    }
}

/// How many pairs of one of the first `n` bullets and an enemy strike.
pub open spec fn kills(bullets: Seq<Bullet>, enemies: Seq<Enemy>, n: int) -> nat
    decreases n,
{
    if n <= 0 {
        0
    } else {
        kills(bullets, enemies, n - 1) + strikes_among(
            bullets[n - 1],
            enemies,
            enemies.len() as int,
        )
    }
}

/// Whether the bullet strikes one of the first `n` enemies.
pub open spec fn strikes_any(b: Bullet, enemies: Seq<Enemy>, n: int) -> bool {
    exists|j: int| 0 <= j < n && strikes(b, #[trigger] enemies[j])
}

/// Whether one of the first `n` bullets strikes the enemy.
pub open spec fn struck(e: Enemy, bullets: Seq<Bullet>, n: int) -> bool {
    exists|i: int| 0 <= i < n && strikes(#[trigger] bullets[i], e)
}

/// Whether the bullet touches one of the first `n` walls.
pub open spec fn meets_wall(b: Bullet, walls: Seq<[i32; 4]>, n: int) -> bool {
    exists|k: int| 0 <= k < n && b.hits_wall(#[trigger] walls[k])
}

/// A bullet of the player after its turn: a live bullet advances, and
/// stays alive only if it then strikes no enemy and touches no wall.
pub open spec fn player_bullet_after(b: Bullet, enemies: Seq<Enemy>, walls: Seq<[i32; 4]>) -> Bullet {
    if b.alive {
        let a = b.advanced();
        Bullet {
            alive: a.alive && !strikes_any(b, enemies, enemies.len() as int) && !meets_wall(
                a,
                walls,
                walls.len() as int,
            ),
            ..a
        }
    } else {
        b
    }
}

/// An enemy after the player's bullets had their turn.
pub open spec fn enemy_after_bullets(e: Enemy, bullets: Seq<Bullet>) -> Enemy {
    Enemy { alive: e.alive && !struck(e, bullets, bullets.len() as int), ..e }
}

/// Whether a live bullet, once advanced, hits the player.
pub open spec fn wounds(b: Bullet, p: Player) -> bool {
    b.alive && b.advanced().hits_player(p)
}

/// How many of the first `n` bullets wound the player.
pub open spec fn wound_count(bullets: Seq<Bullet>, p: Player, n: int) -> nat
    decreases n,
{
    if n <= 0 {
        0
    } else {
        wound_count(bullets, p, n - 1) + if wounds(bullets[n - 1], p) {
            1nat
        } else {
            0nat
        }
    }
}

/// A bullet of an enemy after its turn: a live bullet advances, and stays
/// alive only if it then misses the player and touches no wall.
pub open spec fn enemy_bullet_after(b: Bullet, p: Player, walls: Seq<[i32; 4]>) -> Bullet {
    if b.alive {
        let a = b.advanced();
        Bullet {
            alive: a.alive && !a.hits_player(p) && !meets_wall(a, walls, walls.len() as int),
            ..a
        }
    } else {
        b
    }
}

/// Health after `n` wounds: it stops at zero.
pub open spec fn lose_health(health: u32, n: nat) -> u32 {
    if health >= n {
        (health - n) as u32
    } else {
        0
    }
}

/// The bullets that are alive, in their order.
pub open spec fn live_bullets(s: Seq<Bullet>) -> Seq<Bullet> {
    s.filter(|b: Bullet| b.alive)
}

/// The enemies that are alive, in their order.
pub open spec fn live_enemies(s: Seq<Enemy>) -> Seq<Enemy> {
    s.filter(|e: Enemy| e.alive)
}

impl GameView {
    /// How many enemies the player's bullets kill this tick, each pair of
    /// a bullet and an enemy it strikes counted.
    pub open spec fn kill_count(self) -> nat {
        kills(self.player_bullets, self.enemies, self.player_bullets.len() as int)
    }

    /// The game after the player's bullets had their turn: every live
    /// bullet advances; a bullet and an enemy that strike are both dead,
    /// and each such pair adds to the score; a bullet that touches a wall
    /// is dead. A kill asks for its cue.
    pub open spec fn player_bullets_flown(self) -> GameView {
        let base = if self.kill_count() > 0 {
            self.cued()
        } else {
            self
        };
        GameView {
            player_bullets: Seq::new(
                self.player_bullets.len(),
                |i: int| player_bullet_after(self.player_bullets[i], self.enemies, self.walls),
            ),
            enemies: Seq::new(
                self.enemies.len(),
                |j: int| enemy_after_bullets(self.enemies[j], self.player_bullets),
            ),
            score: add_score(self.score, self.kill_count()),
            ..base
        }
    }

    /// The cue that the turn of the player's bullets triggers.
    pub open spec fn player_bullets_cue(self) -> Option<Cue> {
        if self.kill_count() > 0 {
            self.gated(Cue::EnemyKilled)
        } else {
            None
        }
    }

    /// How often the enemies' bullets wound the player this tick.
    pub open spec fn wounds_taken(self) -> nat {
        wound_count(self.enemy_bullets, self.player, self.enemy_bullets.len() as int)
    }

    /// The game after the enemies' bullets had their turn: every live
    /// bullet advances; one that hits the player is dead and costs a life;
    /// one that touches a wall is dead. A hit asks for its cue.
    pub open spec fn enemy_bullets_flown(self) -> GameView {
        let base = if self.wounds_taken() > 0 {
            self.cued()
        } else {
            self
        };
        GameView {
            enemy_bullets: Seq::new(
                self.enemy_bullets.len(),
                |i: int| enemy_bullet_after(self.enemy_bullets[i], self.player, self.walls),
            ),
            player: Player {
                health: lose_health(self.player.health, self.wounds_taken()),
                ..self.player
            },
            ..base
        }
    }

    /// The cue that the turn of the enemies' bullets triggers.
    pub open spec fn enemy_bullets_cue(self) -> Option<Cue> {
        if self.wounds_taken() > 0 {
            self.gated(Cue::PlayerHit)
        } else {
            None
        }
    }

    /// The game after `dt` microseconds went by on the cooldown, which
    /// stops at zero.
    pub open spec fn cooled(self, dt: u64) -> GameView {
        GameView {
            fire_cooldown: if self.fire_cooldown >= dt {
                (self.fire_cooldown - dt) as u64
            } else {
                0
            },
            ..self
        }
    }

    /// The first, settled part of a tick: the player's bullets have their
    /// turn, then the enemies' bullets, then `dt` microseconds go by on
    /// the cooldown and the dead are removed.
    pub open spec fn volleyed(self, dt: u64) -> GameView {
        self.player_bullets_flown().enemy_bullets_flown().cooled(dt).pruned()
    }

    /// The game without its dead bullets and enemies; the others keep
    /// their order.
    pub open spec fn pruned(self) -> GameView {
        GameView {
            player_bullets: live_bullets(self.player_bullets),
            enemy_bullets: live_bullets(self.enemy_bullets),
            enemies: live_enemies(self.enemies),
            ..self
        }
    }
}

/// A dead bullet strikes no enemy.
pub proof fn lemma_dead_bullet_strikes_nothing(b: Bullet, enemies: Seq<Enemy>, n: int)
    requires
        !b.alive,
    ensures
        strikes_among(b, enemies, n) == 0,
    decreases n,
{
    if n > 0 {
        lemma_dead_bullet_strikes_nothing(b, enemies, n - 1);
    }
}

/// Tells whether the bullet touches any of the walls.
pub fn bullet_meets_wall(bullet: &Bullet, walls: &Vec<[i32; 4]>) -> (hit: bool)
    ensures
        hit == meets_wall(*bullet, walls@, walls@.len() as int),
{
    let mut hit = false;
    let mut k: usize = 0;
    while k < walls.len()
        invariant
            k <= walls.len(),
            hit == meets_wall(*bullet, walls@, k as int),
        decreases walls.len() - k,
    {
        if bullet.collides_wall(&walls[k]) {
            hit = true;
        }
        k = k + 1;
    }
    hit
}

/// Removes the dead bullets and keeps the others in their order.
pub fn retain_live_bullets(bullets: &mut Vec<Bullet>)
    ensures
        final(bullets)@ == live_bullets(old(bullets)@),
{
    let mut kept: Vec<Bullet> = Vec::new();
    let mut i: usize = 0;
    assert(bullets@.take(0).filter(|b: Bullet| b.alive) =~= Seq::<Bullet>::empty()) by {
        reveal(Seq::filter);
    }
    while i < bullets.len()
        invariant
            i <= bullets.len(),
            kept@ == live_bullets(bullets@.take(i as int)),
        decreases bullets.len() - i,
    {
        proof {
            reveal(Seq::filter);
            assert(bullets@.take(i + 1).drop_last() =~= bullets@.take(i as int));
        }
        if bullets[i].alive {
            kept.push(bullets[i]);
        }
        i = i + 1;
    }
    assert(bullets@.take(i as int) =~= bullets@);
    *bullets = kept;
}

/// Removes the dead enemies and keeps the others in their order.
pub fn retain_live_enemies(enemies: &mut Vec<Enemy>)
    ensures
        final(enemies)@ == live_enemies(old(enemies)@),
{
    let mut kept: Vec<Enemy> = Vec::new();
    let mut i: usize = 0;
    assert(enemies@.take(0).filter(|e: Enemy| e.alive) =~= Seq::<Enemy>::empty()) by {
        reveal(Seq::filter);
    }
    while i < enemies.len()
        invariant
            i <= enemies.len(),
            kept@ == live_enemies(enemies@.take(i as int)),
        decreases enemies.len() - i,
    {
        proof {
            reveal(Seq::filter);
            assert(enemies@.take(i + 1).drop_last() =~= enemies@.take(i as int));
        }
        if enemies[i].alive {
            kept.push(enemies[i]);
        }
        i = i + 1;
    }
    assert(enemies@.take(i as int) =~= enemies@);
    *enemies = kept;
}

impl Game {
    /// Adds one kill to the score.
    pub fn award_kill(&mut self)
        ensures
            final(self)@ == (GameView { score: add_score(old(self)@.score, 1), ..old(self)@ }),
    {
        if self.score <= u32::MAX - KILL_SCORE {
            self.score = self.score + KILL_SCORE;
        } else {
            self.score = u32::MAX;
        }
    }

    /// Advances the player's bullets and resolves what they hit: enemies
    /// first, then walls.
    pub fn player_bullet_check(&mut self) -> (cue: Option<Cue>)
        ensures
            final(self)@ == old(self)@.player_bullets_flown(),
            cue == old(self)@.player_bullets_cue(),
    {
        let ghost pre = self@;
        let mut cue: Option<Cue> = None;
        let mut i: usize = 0;
        while i < self.player_bullets.len()
            invariant
                i <= self.player_bullets.len(),
                self.player_bullets@.len() == pre.player_bullets.len(),
                self.enemies@.len() == pre.enemies.len(),
                forall|k: int|
                    0 <= k < i ==> #[trigger] self.player_bullets@[k] == player_bullet_after(
                        pre.player_bullets[k],
                        pre.enemies,
                        pre.walls,
                    ),
                forall|k: int|
                    i <= k < pre.player_bullets.len() ==> #[trigger] self.player_bullets@[k]
                        == pre.player_bullets[k],
                forall|j: int|
                    0 <= j < pre.enemies.len() ==> #[trigger] self.enemies@[j] == (Enemy {
                        alive: pre.enemies[j].alive && !struck(
                            pre.enemies[j],
                            pre.player_bullets,
                            i as int,
                        ),
                        ..pre.enemies[j]
                    }),
                self@ == (GameView {
                    player_bullets: self@.player_bullets,
                    enemies: self@.enemies,
                    score: add_score(pre.score, kills(pre.player_bullets, pre.enemies, i as int)),
                    ..if kills(pre.player_bullets, pre.enemies, i as int) > 0 {
                        pre.cued()
                    } else {
                        pre
                    }
                }),
                cue == if kills(pre.player_bullets, pre.enemies, i as int) > 0 {
                    pre.gated(Cue::EnemyKilled)
                } else {
                    None
                },
            decreases self.player_bullets.len() - i,
        {
            let mut bullet = self.player_bullets[i];
            if bullet.alive {
                let ghost start = bullet;
                let ghost before = kills(pre.player_bullets, pre.enemies, i as int);
                bullet.update();
                let mut j: usize = 0;
                while j < self.enemies.len()
                    invariant
                        j <= self.enemies.len(),
                        i < pre.player_bullets.len(),
                        start == pre.player_bullets[i as int],
                        start.alive,
                        before == kills(pre.player_bullets, pre.enemies, i as int),
                        bullet == (Bullet {
                            alive: start.advanced().alive && !strikes_any(
                                start,
                                pre.enemies,
                                j as int,
                            ),
                            ..start.advanced()
                        }),
                        self.player_bullets@.len() == pre.player_bullets.len(),
                        self.enemies@.len() == pre.enemies.len(),
                        forall|k: int|
                            0 <= k < i ==> #[trigger] self.player_bullets@[k]
                                == player_bullet_after(
                                pre.player_bullets[k],
                                pre.enemies,
                                pre.walls,
                            ),
                        forall|k: int|
                            i <= k < pre.player_bullets.len()
                                ==> #[trigger] self.player_bullets@[k] == pre.player_bullets[k],
                        forall|m: int|
                            0 <= m < j ==> #[trigger] self.enemies@[m] == (Enemy {
                                alive: pre.enemies[m].alive && !struck(
                                    pre.enemies[m],
                                    pre.player_bullets,
                                    i + 1,
                                ),
                                ..pre.enemies[m]
                            }),
                        forall|m: int|
                            j <= m < pre.enemies.len() ==> #[trigger] self.enemies@[m] == (Enemy {
                                alive: pre.enemies[m].alive && !struck(
                                    pre.enemies[m],
                                    pre.player_bullets,
                                    i as int,
                                ),
                                ..pre.enemies[m]
                            }),
                        self@ == (GameView {
                            player_bullets: self@.player_bullets,
                            enemies: self@.enemies,
                            score: add_score(
                                pre.score,
                                before + strikes_among(start, pre.enemies, j as int),
                            ),
                            ..if before + strikes_among(start, pre.enemies, j as int) > 0 {
                                pre.cued()
                            } else {
                                pre
                            }
                        }),
                        cue == if before + strikes_among(start, pre.enemies, j as int) > 0 {
                            pre.gated(Cue::EnemyKilled)
                        } else {
                            None
                        },
                    decreases self.enemies.len() - j,
                {
                    let mut enemy = self.enemies[j];
                    if bullet.collides_enemy(&enemy) {
                        bullet.alive = false;
                        enemy.alive = false;
                        self.enemies[j] = enemy;
                        match self.trigger(Cue::EnemyKilled) {
                            Some(c) => {
                                cue = Some(c);
                            },
                            None => {},
                        }
                        self.award_kill();
                    }
                    j = j + 1;
                }
                if bullet_meets_wall(&bullet, &self.walls) {
                    bullet.alive = false;
                }
                self.player_bullets[i] = bullet;
            } else {
                proof {
                    lemma_dead_bullet_strikes_nothing(bullet, pre.enemies, pre.enemies.len() as int);
                }
            }
            i = i + 1;
        }
        assert(self@.player_bullets =~= pre.player_bullets_flown().player_bullets);
        assert(self@.enemies =~= pre.player_bullets_flown().enemies);
        cue
    }

    /// Advances the enemies' bullets and resolves what they hit: the
    /// player first, then walls.
    pub fn enemy_bullet_check(&mut self) -> (cue: Option<Cue>)
        ensures
            final(self)@ == old(self)@.enemy_bullets_flown(),
            cue == old(self)@.enemy_bullets_cue(),
    {
        let ghost pre = self@;
        let mut cue: Option<Cue> = None;
        let mut i: usize = 0;
        while i < self.enemy_bullets.len()
            invariant
                i <= self.enemy_bullets.len(),
                self.enemy_bullets@.len() == pre.enemy_bullets.len(),
                forall|k: int|
                    0 <= k < i ==> #[trigger] self.enemy_bullets@[k] == enemy_bullet_after(
                        pre.enemy_bullets[k],
                        pre.player,
                        pre.walls,
                    ),
                forall|k: int|
                    i <= k < pre.enemy_bullets.len() ==> #[trigger] self.enemy_bullets@[k]
                        == pre.enemy_bullets[k],
                self@ == (GameView {
                    enemy_bullets: self@.enemy_bullets,
                    player: Player {
                        health: lose_health(
                            pre.player.health,
                            wound_count(pre.enemy_bullets, pre.player, i as int),
                        ),
                        ..pre.player
                    },
                    ..if wound_count(pre.enemy_bullets, pre.player, i as int) > 0 {
                        pre.cued()
                    } else {
                        pre
                    }
                }),
                cue == if wound_count(pre.enemy_bullets, pre.player, i as int) > 0 {
                    pre.gated(Cue::PlayerHit)
                } else {
                    None
                },
            decreases self.enemy_bullets.len() - i,
        {
            let mut bullet = self.enemy_bullets[i];
            if bullet.alive {
                bullet.update();
                if bullet.collides_p(&self.player) {
                    bullet.alive = false;
                    self.player.lose_life();
                    match self.trigger(Cue::PlayerHit) {
                        Some(c) => {
                            cue = Some(c);
                        },
                        None => {},
                    }
                }
                if bullet_meets_wall(&bullet, &self.walls) {
                    bullet.alive = false;
                }
                self.enemy_bullets[i] = bullet;
            }
            i = i + 1;
        }
        assert(self@.enemy_bullets =~= pre.enemy_bullets_flown().enemy_bullets);
        cue
    }

    /// Lets `dt` microseconds go by on the cooldown.
    pub fn cool_down(&mut self, dt: u64)
        ensures
            final(self)@ == old(self)@.cooled(dt),
    {
        if self.fire_cooldown >= dt {
            self.fire_cooldown = self.fire_cooldown - dt;
        } else {
            self.fire_cooldown = 0;
        }
    }

    /// Removes dead bullets and enemies from their collections.
    pub fn prune(&mut self)
        ensures
            final(self)@ == old(self)@.pruned(),
    {
        retain_live_bullets(&mut self.player_bullets);
        retain_live_bullets(&mut self.enemy_bullets);
        retain_live_enemies(&mut self.enemies);
    }
}

/// A bullet that strikes none of the first `n` enemies counts no strike
/// among them.
pub proof fn lemma_no_strike_counts_zero(b: Bullet, enemies: Seq<Enemy>, n: int)
    requires
        !strikes_any(b, enemies, n),
    ensures
        strikes_among(b, enemies, n) == 0,
    decreases n,
{
    if n > 0 {
        assert(!strikes_any(b, enemies, n - 1));
        assert(!strikes(b, enemies[n - 1]));
        lemma_no_strike_counts_zero(b, enemies, n - 1);
    }
}

/// A bullet that strikes enemy `j`, and no other of the first `n`, counts
/// exactly one strike among them.
pub proof fn lemma_one_strike_counts_one(b: Bullet, enemies: Seq<Enemy>, n: int, j: int)
    requires
        0 <= j < n,
        strikes(b, enemies[j]),
        forall|m: int| 0 <= m < n && m != j ==> !strikes(b, #[trigger] enemies[m]),
    ensures
        strikes_among(b, enemies, n) == 1,
    decreases n,
{
    if j == n - 1 {
        assert(!strikes_any(b, enemies, n - 1));
        lemma_no_strike_counts_zero(b, enemies, n - 1);
    } else {
        lemma_one_strike_counts_one(b, enemies, n - 1, j);
    }
}

/// A strike of bullet `i`, one of the first `n`, on enemy `j` is counted
/// among the kills.
pub proof fn lemma_strike_is_counted(bullets: Seq<Bullet>, enemies: Seq<Enemy>, n: int, i: int, j: int)
    requires
        0 <= i < n,
        0 <= j < enemies.len(),
        strikes(bullets[i], enemies[j]),
    ensures
        kills(bullets, enemies, n) >= 1,
    decreases n,
{
    if i == n - 1 {
        lemma_strike_among_is_counted(bullets[i], enemies, enemies.len() as int, j);
    } else {
        lemma_strike_is_counted(bullets, enemies, n - 1, i, j);
    }
}

/// A strike on enemy `j`, one of the first `n`, is counted.
pub proof fn lemma_strike_among_is_counted(b: Bullet, enemies: Seq<Enemy>, n: int, j: int)
    requires
        0 <= j < n,
        strikes(b, enemies[j]),
    ensures
        strikes_among(b, enemies, n) >= 1,
    decreases n,
{
    if j < n - 1 {
        lemma_strike_among_is_counted(b, enemies, n - 1, j);
    }
}

/// Where bullet `i` on enemy `j` is the only strike of the first `n`
/// bullets, the kills among them are none up to bullet `i` and one
/// behind it.
pub proof fn lemma_only_strike_counts_one(
    bullets: Seq<Bullet>,
    enemies: Seq<Enemy>,
    n: int,
    i: int,
    j: int,
)
    requires
        0 <= n <= bullets.len(),
        0 <= i < bullets.len(),
        0 <= j < enemies.len(),
        strikes(bullets[i], enemies[j]),
        forall|i2: int, j2: int|
            0 <= i2 < bullets.len() && 0 <= j2 < enemies.len() && strikes(
                #[trigger] bullets[i2],
                #[trigger] enemies[j2],
            ) ==> i2 == i && j2 == j,
    ensures
        kills(bullets, enemies, n) == if i < n {
            1nat
        } else {
            0nat
        },
    decreases n,
{
    if n > 0 {
        lemma_only_strike_counts_one(bullets, enemies, n - 1, i, j);
        let b = bullets[n - 1];
        if i == n - 1 {
            lemma_one_strike_counts_one(b, enemies, enemies.len() as int, j);
        } else {
            assert(!strikes_any(b, enemies, enemies.len() as int));
            lemma_no_strike_counts_zero(b, enemies, enemies.len() as int);
        }
    }
}

/// A dead bullet is not among the live ones.
pub proof fn lemma_dead_bullet_pruned(s: Seq<Bullet>, b: Bullet)
    requires
        !b.alive,
    ensures
        !live_bullets(s).contains(b),
{
    let pred = |x: Bullet| x.alive;
    if s.filter(pred).contains(b) {
        let k = choose|k: int| 0 <= k < s.filter(pred).len() && s.filter(pred)[k] == b;
        s.lemma_filter_pred(pred, k);
    }
}

/// A dead enemy is not among the live ones.
pub proof fn lemma_dead_enemy_pruned(s: Seq<Enemy>, e: Enemy)
    requires
        !e.alive,
    ensures
        !live_enemies(s).contains(e),
{
    let pred = |x: Enemy| x.alive;
    if s.filter(pred).contains(e) {
        let k = choose|k: int| 0 <= k < s.filter(pred).len() && s.filter(pred)[k] == e;
        s.lemma_filter_pred(pred, k);
    }
}

/// When a live bullet of the player, once advanced, hits an enemy, the
/// bullets' turn leaves both dead and counts the kill, and after the
/// volley neither is among the bullets and enemies that remain.
pub proof fn lemma_struck_pair_removed(g: GameView, dt: u64, i: int, j: int)
    requires
        0 <= i < g.player_bullets.len(),
        0 <= j < g.enemies.len(),
        strikes(g.player_bullets[i], g.enemies[j]),
    ensures
        !g.player_bullets_flown().player_bullets[i].alive,
        !g.player_bullets_flown().enemies[j].alive,
        g.kill_count() >= 1,
        g.volleyed(dt).score == add_score(g.score, g.kill_count()),
        !g.volleyed(dt).player_bullets.contains(g.player_bullets_flown().player_bullets[i]),
        !g.volleyed(dt).enemies.contains(g.player_bullets_flown().enemies[j]),
        forall|k: int|
            0 <= k < g.volleyed(dt).player_bullets.len() ==> (
            #[trigger] g.volleyed(dt).player_bullets[k]).alive,
        forall|k: int|
            0 <= k < g.volleyed(dt).enemies.len() ==> (#[trigger] g.volleyed(dt).enemies[k]).alive,
{
    let flown = g.player_bullets_flown();
    lemma_strike_is_counted(g.player_bullets, g.enemies, g.player_bullets.len() as int, i, j);
    assert(strikes_any(g.player_bullets[i], g.enemies, g.enemies.len() as int));
    assert(struck(g.enemies[j], g.player_bullets, g.player_bullets.len() as int));
    lemma_dead_bullet_pruned(flown.player_bullets, flown.player_bullets[i]);
    lemma_dead_enemy_pruned(flown.enemies, flown.enemies[j]);
    assert(g.volleyed(dt).player_bullets == live_bullets(flown.player_bullets));
    assert(g.volleyed(dt).enemies == live_enemies(flown.enemies));
    assert forall|k: int| 0 <= k < g.volleyed(dt).player_bullets.len() implies (
    #[trigger] g.volleyed(dt).player_bullets[k]).alive by {
        flown.player_bullets.lemma_filter_pred(|x: Bullet| x.alive, k);
    }
    assert forall|k: int| 0 <= k < g.volleyed(dt).enemies.len() implies (
    #[trigger] g.volleyed(dt).enemies[k]).alive by {
        flown.enemies.lemma_filter_pred(|x: Enemy| x.alive, k);
    }
}

/// When that strike is the only one of the volley, and the score has
/// room, the score goes up by exactly `KILL_SCORE`.
pub proof fn lemma_single_strike_scores_once(g: GameView, dt: u64, i: int, j: int)
    requires
        0 <= i < g.player_bullets.len(),
        0 <= j < g.enemies.len(),
        strikes(g.player_bullets[i], g.enemies[j]),
        forall|i2: int, j2: int|
            0 <= i2 < g.player_bullets.len() && 0 <= j2 < g.enemies.len() && strikes(
                #[trigger] g.player_bullets[i2],
                #[trigger] g.enemies[j2],
            ) ==> i2 == i && j2 == j,
        g.score + KILL_SCORE <= u32::MAX,
    ensures
        g.kill_count() == 1,
        g.volleyed(dt).score == g.score + KILL_SCORE,
{
    lemma_only_strike_counts_one(
        g.player_bullets,
        g.enemies,
        g.player_bullets.len() as int,
        i,
        j,
    );
}

} // verus!
