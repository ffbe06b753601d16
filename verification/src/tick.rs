use vstd::prelude::*;
use crate::encounters::{
    lemma_enemy_shot_keeps, lemma_enemy_update_keeps, lemma_wall_update_keeps,
};
use crate::game::{wave_size, Game, GameView, FINAL_LEVEL, START_X};
use crate::models::player::{Player, PLAYER_HEALTH};
use crate::models::vector::Vector;
use crate::music::Cue;
use crate::placement::{reserved, usable};

verus! {

/// The cues that an optional cue stands for: itself, or none.
pub open spec fn cue_seq(cue: Option<Cue>) -> Seq<Cue> {
    match cue {
        Some(c) => seq![c],
        None => Seq::empty(),
    }
}

impl GameView {
    /// The cue of the loss check.
    pub open spec fn loss_cue(self) -> Option<Cue> {
        if self.player.health == 0 {
            self.gated(Cue::PlayerDefeated)
        } else {
            None
        }
    }

    /// The game made ready for its next level: the player back at its
    /// start with full health, none of its bullets in flight.
    pub open spec fn level_prepared(self) -> GameView {
        GameView {
            player: Player {
                pos: Vector { x: START_X, y: (self.height / 2) as i32 },
                health: PLAYER_HEALTH,
                ..self.player
            },
            player_bullets: Seq::empty(),
            new_level: false,
            ..self
        }
    }

    /// Whether `post` may follow `self` once a pending new level was
    /// handled: at the final level the game is won; at any other the game
    /// is made ready and the level's wave is spawned. Either way no new
    /// level is pending afterwards.
    pub open spec fn level_begun_to(self, post: GameView) -> bool {
        if !self.new_level {
            post == self
        } else if self.level == FINAL_LEVEL {
            post == (GameView { won: true, new_level: false, ..self })
        } else {
            self.level_prepared().wave_added(post)
        }
    }

    /// A tick of a running game that went through the states `shot`,
    /// `met` and `bumped` after its three random steps: the enemies'
    /// chance to shoot, the enemies' turn, the player's wall check. Around
    /// them the tick is settled: the volley comes first; the loss check
    /// follows; a lost game stops there, any other checks the exit and
    /// handles a new level.
    pub open spec fn tick_through(
        self,
        dt: u64,
        shot: (GameView, Option<Cue>),
        met: (GameView, Option<Cue>),
        bumped: (GameView, Option<Cue>),
        post: GameView,
        cues: Seq<Cue>,
    ) -> bool {
        let flown = self.player_bullets_flown();
        &&& self.volleyed(dt).enemy_shot_to(shot.0, shot.1)
        &&& shot.0.enemy_update_to(met.0, met.1)
        &&& met.0.wall_update_to(bumped.0, bumped.1)
        &&& if bumped.0.loss_checked().game_over {
            post == bumped.0.loss_checked()
        } else {
            bumped.0.loss_checked().win_checked().level_begun_to(post)
        }
        &&& cues == cue_seq(self.player_bullets_cue()) + cue_seq(flown.enemy_bullets_cue())
            + cue_seq(shot.1) + cue_seq(met.1) + cue_seq(bumped.1) + cue_seq(
            bumped.0.loss_cue(),
        )
    }

    /// Whether `post` and `cues` may follow `self` on a tick of `dt`
    /// microseconds. A frozen game stays as it is.
    pub open spec fn tick_to(self, dt: u64, post: GameView, cues: Seq<Cue>) -> bool {
        if self.frozen() {
            post == self && cues.len() == 0
        } else {
            exists|
                shot: (GameView, Option<Cue>),
                met: (GameView, Option<Cue>),
                bumped: (GameView, Option<Cue>),
            | #[trigger] self.tick_through(dt, shot, met, bumped, post, cues)
        }
    }
}

/// Adds a cue, if there is one, behind those already noted.
pub fn note(cues: &mut Vec<Cue>, cue: Option<Cue>)
    ensures
        final(cues)@ == old(cues)@ + cue_seq(cue),
{
    match cue {
        Some(c) => {
            cues.push(c);
            assert(cues@ =~= old(cues)@ + cue_seq(cue));
        },
        None => {
            assert(cues@ =~= old(cues)@ + cue_seq(cue));
        },
    }
}

impl Game {
    /// Handles a pending new level.
    pub fn begin_level(&mut self)
        requires
            usable(old(self)@.width, old(self)@.height),
            old(self)@.level <= FINAL_LEVEL,
        ensures
            old(self)@.level_begun_to(final(self)@),
    {
        if self.new_level {
            if self.level == FINAL_LEVEL {
                self.won = true;
                self.new_level = false;
            } else {
                self.player.reset(START_X, self.dimensions[1] / 2);
                self.player_bullets.clear();
                self.new_level = false;
                self.spawn_wave();
            }
        }
    }

    /// Advances the game by one tick of `dt` microseconds and hands back
    /// the cues that it triggered, in their order.
    pub fn on_update(&mut self, dt: u64) -> (cues: Vec<Cue>)
        requires
            old(self)@.wf(),
            usable(old(self)@.width, old(self)@.height),
        ensures
            old(self)@.tick_to(dt, final(self)@, cues@),
            final(self)@.wf(),
    {
        let mut cues: Vec<Cue> = Vec::new();
        if self.game_over || self.won {
            return cues;
        }
        let ghost pre = self@;
        let c1 = self.player_bullet_check();
        note(&mut cues, c1);
        let c2 = self.enemy_bullet_check();
        note(&mut cues, c2);
        self.cool_down(dt);
        self.prune();

        let c3 = self.enemy_chance_shoot();
        note(&mut cues, c3);
        let ghost shot = (self@, c3);
        let c4 = self.enemy_update();
        note(&mut cues, c4);
        let ghost met = (self@, c4);
        let c5 = self.wall_update();
        note(&mut cues, c5);
        let ghost bumped = (self@, c5);

        let c6 = self.check_loss();
        note(&mut cues, c6);
        if !self.game_over {
            self.check_win();
            self.begin_level();
        }
        assert(pre.tick_through(dt, shot, met, bumped, self@, cues@));
        cues
    }
}

/// A tick takes a well-formed game to a well-formed game: it is never both
/// lost and won, and no new level stays pending. The arena and its walls
/// stay, the score does not fall, the level stays or goes up by one, a
/// game that ends the tick lost has a player without health, and health
/// that was at most the starting health stays so. A frozen game does not
/// change at all.
pub proof fn lemma_tick_keeps_order(g: GameView, dt: u64, post: GameView, cues: Seq<Cue>)
    requires
        g.wf(),
        g.tick_to(dt, post, cues),
    ensures
        post.wf(),
        post.width == g.width,
        post.height == g.height,
        post.walls == g.walls,
        post.score >= g.score,
        post.level == g.level || post.level == g.level + 1,
        post.game_over && !g.game_over ==> post.player.health == 0,
        g.player.health <= PLAYER_HEALTH ==> post.player.health <= PLAYER_HEALTH,
        g.frozen() ==> post == g,
{
    if !g.frozen() {
        let (shot, met, bumped) = choose|
            shot: (GameView, Option<Cue>),
            met: (GameView, Option<Cue>),
            bumped: (GameView, Option<Cue>),
        | #[trigger] g.tick_through(dt, shot, met, bumped, post, cues);
        assert(g.tick_through(dt, shot, met, bumped, post, cues));
        lemma_enemy_shot_keeps(g.volleyed(dt), shot.0, shot.1);
        lemma_enemy_update_keeps(shot.0, met.0, met.1);
        lemma_wall_update_keeps(met.0, bumped.0, bumped.1);
    }
}

/// A running game whose player stands in the exit with no enemy left goes
/// up one level, once: the level is one higher and a new level is pending
/// after the check, and no longer pending once it was handled. At the
/// final level the game is then won; at any other the player is back at
/// its start, outside the exit, and the level's wave of `4 + 2 * level`
/// enemies stands in the arena, none of them in the reserved zone.
pub proof fn lemma_exit_advances_level(g: GameView, post: GameView)
    requires
        g.wf(),
        !g.frozen(),
        g.at_exit(),
        g.win_checked().level_begun_to(post),
    ensures
        g.win_checked().new_level,
        g.win_checked().level == g.level + 1,
        post.level == g.level + 1,
        !post.new_level,
        post.won <==> post.level == FINAL_LEVEL,
        !post.won ==> {
            &&& post.enemies.len() == wave_size(post.level)
            &&& !post.at_exit()
            &&& post.player.pos == (Vector { x: START_X, y: (g.height / 2) as i32 })
            &&& post.player.health == PLAYER_HEALTH
            &&& forall|k: int|
                0 <= k < post.enemies.len() ==> !reserved(
                    (#[trigger] post.enemies[k]).pos,
                    g.height,
                )
        },
{
    if !post.won {
        let mid = g.win_checked().level_prepared();
        assert(mid.wave_added(post));
        let wave = post.enemies.subrange(mid.enemies.len() as int, post.enemies.len() as int);
        assert forall|k: int| 0 <= k < post.enemies.len() implies !reserved(
            (#[trigger] post.enemies[k]).pos,
            g.height,
        ) by {
            assert(post.enemies[k] == wave[k]);
        }
    }
}

} // verus!
