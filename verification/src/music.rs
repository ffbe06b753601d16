use vstd::prelude::*;

verus! {

/// A sound cue that the simulation asks for. The simulation only decides
/// that a cue is due; playing it is left to whoever drives the game.
#[derive(Clone, Copy, Debug, PartialEq, Eq, Structural)]
pub enum Cue {
    PlayerFire,
    PlayerHit,
    EnemyKilled,
    EnemyFire,
    PlayerDefeated,
}

impl Cue {
    /// The number under which the cue's sound is played.
    pub open spec fn number(self) -> u32 {
        match self {
            Cue::PlayerFire => 0,
            Cue::PlayerHit => 1,
            Cue::EnemyKilled => 2,
            Cue::EnemyFire => 3,
            Cue::PlayerDefeated => 4,
        }
    }

    pub fn id(self) -> (n: u32)
        ensures
            n == self.number(),
    {
        match self {
            Cue::PlayerFire => 0,
            Cue::PlayerHit => 1,
            Cue::EnemyKilled => 2,
            Cue::EnemyFire => 3,
            Cue::PlayerDefeated => 4,
        }
    }
}

/// The asset that holds the sound with the given number. Numbers without a
/// sound of their own play the player's shot.
pub open spec fn sound_path(sound: u32) -> Seq<char> {
    if sound == 1 {
        "./assets/lost_life.wav"@
    } else if sound == 2 {
        "./assets/enemy_lost_life.wav"@
    } else if sound == 3 {
        "./assets/shoot_enemy.wav"@
    } else if sound == 4 {
        "./assets/player_die.wav"@
    } else {
        "./assets/shoot_player.wav"@
    }
}

/// Picks the sound file to play for a sound number.
pub fn sound_file(sound: u32) -> (file: &'static str)
    ensures
        file@ == sound_path(sound),
{
    match sound {
        0 => "./assets/shoot_player.wav",
        1 => "./assets/lost_life.wav",
        2 => "./assets/enemy_lost_life.wav",
        3 => "./assets/shoot_enemy.wav",
        4 => "./assets/player_die.wav",
        _ => "./assets/shoot_player.wav",
    }
}

} // verus!
