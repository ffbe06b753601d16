use berzerk::combat::{bullet_meets_wall, retain_live_bullets, retain_live_enemies};
use berzerk::encounters::{contact, enemy_touches_wall, Contact, ENEMY_FIRE_DRAW};
use berzerk::game::{Direction, Game, Key, FIRE_COOLDOWN};
use berzerk::models::bullet::Bullet;
use berzerk::models::enemy::Enemy;
use berzerk::models::player::Player;
use berzerk::models::vector::Vector;
use berzerk::music::Cue;
use berzerk::placement::in_reserved_zone;
use berzerk::tick::note;

const EVERYWHERE: [i32; 4] = [-100_000, -100_000, 100_000, 100_000];

const NOWHERE: [i32; 4] = [-100_000, -100_000, -99_000, -99_000];

fn dead(mut b: Bullet) -> Bullet {
    b.alive = false;
    b
}

fn dead_enemy(x: i32, y: i32) -> Enemy {
    let mut e = Enemy::new(x, y);
    e.alive = false;
    e
}

#[test]
fn end_to_end_fire_and_kill() {
    let mut g = Game::new(900, 600);
    assert_eq!(g.level, 1);
    assert_eq!((g.player.pos.x, g.player.pos.y), (75, 300));
    assert_eq!(g.input(Key::Space, true), Some(Cue::PlayerFire));
    assert_eq!(g.player_bullets, vec![Bullet::new(75, 300, Direction::EAST)]);

    let mut flying = g.player_bullets[0];
    flying.update();
    assert_eq!((flying.pos.x, flying.pos.y), (80, 300));
    // an enemy centred on the bullet is inside the ring's inner edge
    assert!(!flying.collides_enemy(&Enemy::new(80, 300)));
    assert!(flying.collides_enemy(&Enemy::new(100, 300)));

    g.enemies.push(Enemy::new(100, 300));
    g.fire_cooldown = 0;
    assert_eq!(g.player_bullet_check(), Some(Cue::EnemyKilled));
    assert_eq!(g.player_bullets, vec![dead(Bullet::new(80, 300, Direction::EAST))]);
    assert_eq!(g.enemies, vec![dead_enemy(100, 300)]);
    assert_eq!(g.score, 50);
    g.prune();
    assert!(g.player_bullets.is_empty());
    assert!(g.enemies.is_empty());
    assert_eq!(g.score, 50);
}

#[test]
fn end_to_end_fire_and_kill_in_one_tick() {
    let mut g = Game::new(900, 600);
    g.make_level_borders();
    g.input(Key::Space, true);
    g.enemies.push(Enemy::new(100, 300));
    let cues = g.on_update(16_667);
    assert!(g.player_bullets.is_empty());
    assert!(g.enemies.is_empty());
    assert_eq!(g.score, 50);
    // the shot's cue started the cooldown, so the kill's cue is held back
    assert!(cues.is_empty());
    assert_eq!(g.fire_cooldown, FIRE_COOLDOWN - 16_667);
    assert_eq!(g.level, 1);
    assert!(!g.game_over && !g.won && !g.new_level);
}

#[test]
fn end_to_end_three_wall_hits_lose_the_game() {
    let mut g = Game::new(900, 600);
    g.walls.push(EVERYWHERE);
    assert_eq!(g.player.health, 3);

    let cues = g.on_update(FIRE_COOLDOWN);
    assert_eq!(cues, vec![Cue::PlayerHit]);
    assert_eq!(g.player.health, 2);
    assert!(!g.game_over);

    let cues = g.on_update(FIRE_COOLDOWN);
    assert_eq!(cues, vec![Cue::PlayerHit]);
    assert_eq!(g.player.health, 1);
    assert!(!g.game_over);

    let cues = g.on_update(FIRE_COOLDOWN);
    assert_eq!(cues, vec![Cue::PlayerHit]);
    assert_eq!(g.player.health, 0);
    assert!(g.game_over);
    assert!(!g.won);

    // nothing moves any more
    let at = g.player.pos;
    g.player.is_moving = true;
    let cues = g.on_update(FIRE_COOLDOWN);
    assert!(cues.is_empty());
    g.move_player();
    assert_eq!(g.player.pos, at);
    assert_eq!(g.player.health, 0);
    assert_eq!(g.fire_cooldown, FIRE_COOLDOWN);
    assert!(g.game_over && !g.won);
}

#[test]
fn wall_hit_places_the_player_anew_and_throws_it_back() {
    for _ in 0..200 {
        let mut g = Game::new(900, 600);
        g.walls.push(NOWHERE);
        g.walls.push(EVERYWHERE);
        assert_eq!(g.wall_update(), Some(Cue::PlayerHit));
        assert_eq!(g.player.health, 2);
        assert_eq!(g.fire_cooldown, FIRE_COOLDOWN);
        // placed in a spawn region, then thrown back to the west
        let placed = Player::new(g.player.pos.x + 50, g.player.pos.y);
        assert!(!in_reserved_zone(&placed.pos, 600));
        assert!(45 <= placed.pos.x && placed.pos.x < 850);
        assert!(40 <= placed.pos.y && placed.pos.y < 465);
    }
}

#[test]
fn wall_update_counts_each_wall_that_is_touched() {
    let mut g = Game::new(900, 600);
    g.walls.push(EVERYWHERE);
    g.walls.push(NOWHERE);
    g.walls.push(EVERYWHERE);
    g.fire_cooldown = 9;
    assert_eq!(g.wall_update(), None);
    assert_eq!(g.player.health, 1);
    assert_eq!(g.fire_cooldown, 9);
    assert_eq!(g.wall_update(), None);
    assert_eq!(g.player.health, 0);
}

#[test]
fn wall_update_leaves_a_free_player_alone() {
    let mut g = Game::new(900, 600);
    g.make_level_borders();
    assert_eq!(g.wall_update(), None);
    assert_eq!(g.player, Player::new(75, 300));
    assert_eq!(g.fire_cooldown, 0);
    let mut none = Game::new(900, 600);
    assert_eq!(none.wall_update(), None);
    assert_eq!(none.player, Player::new(75, 300));
}

#[test]
fn wall_knock_back_follows_the_heading() {
    let mut g = Game::new(900, 600);
    g.walls.push(EVERYWHERE);
    g.player.dir = Direction::NORTH;
    g.wall_update();
    // placed at 40 or below, then thrown 50 down
    assert!(90 <= g.player.pos.y && g.player.pos.y < 515);
    assert!(45 <= g.player.pos.x && g.player.pos.x < 850);
}

#[test]
fn a_bullet_kills_every_enemy_it_strikes() {
    let mut g = Game::new(900, 600);
    g.player_bullets.push(Bullet::new(95, 300, Direction::EAST));
    g.enemies.push(Enemy::new(120, 300)); // 20 away
    g.enemies.push(Enemy::new(500, 300));
    g.enemies.push(Enemy::new(100, 320)); // 20 away
    g.enemies.push(dead_enemy(100, 280)); // 20 away, dead already
    assert_eq!(g.player_bullet_check(), Some(Cue::EnemyKilled));
    assert_eq!(g.score, 150);
    assert_eq!(g.fire_cooldown, FIRE_COOLDOWN);
    assert_eq!(g.player_bullets, vec![dead(Bullet::new(100, 300, Direction::EAST))]);
    assert_eq!(
        g.enemies,
        vec![
            dead_enemy(120, 300),
            Enemy::new(500, 300),
            dead_enemy(100, 320),
            dead_enemy(100, 280),
        ]
    );
}

#[test]
fn two_bullets_on_one_enemy_score_twice() {
    let mut g = Game::new(900, 600);
    g.player_bullets.push(Bullet::new(75, 300, Direction::EAST));
    g.player_bullets.push(Bullet::new(125, 300, Direction::WEST));
    g.player_bullets.push(Bullet::new(300, 300, Direction::SOUTH));
    g.enemies.push(Enemy::new(100, 300));
    g.fire_cooldown = 3;
    assert_eq!(g.player_bullet_check(), None);
    assert_eq!(g.score, 100);
    assert_eq!(g.fire_cooldown, 3);
    assert_eq!(
        g.player_bullets,
        vec![
            dead(Bullet::new(80, 300, Direction::EAST)),
            dead(Bullet::new(120, 300, Direction::WEST)),
            Bullet::new(300, 305, Direction::SOUTH),
        ]
    );
    assert_eq!(g.enemies, vec![dead_enemy(100, 300)]);
}

#[test]
fn dead_bullets_take_no_turn() {
    let mut g = Game::new(900, 600);
    g.player_bullets.push(dead(Bullet::new(75, 300, Direction::EAST)));
    g.enemy_bullets.push(dead(Bullet::new(60, 300, Direction::EAST)));
    g.enemies.push(Enemy::new(100, 300));
    g.walls.push(EVERYWHERE);
    assert_eq!(g.player_bullet_check(), None);
    assert_eq!(g.enemy_bullet_check(), None);
    assert_eq!(g.player_bullets, vec![dead(Bullet::new(75, 300, Direction::EAST))]);
    assert_eq!(g.enemy_bullets, vec![dead(Bullet::new(60, 300, Direction::EAST))]);
    assert_eq!(g.enemies, vec![Enemy::new(100, 300)]);
    assert_eq!((g.score, g.player.health), (0, 3));
}

#[test]
fn bullets_die_on_walls() {
    let mut g = Game::new(900, 600);
    g.make_level_borders();
    g.player_bullets.push(Bullet::new(860, 300, Direction::EAST));
    g.player_bullets.push(Bullet::new(400, 300, Direction::EAST));
    g.enemy_bullets.push(Bullet::new(35, 400, Direction::WEST));
    g.enemy_bullets.push(Bullet::new(400, 400, Direction::NORTH));
    assert_eq!(g.player_bullet_check(), None);
    assert_eq!(g.enemy_bullet_check(), None);
    assert_eq!(
        g.player_bullets,
        vec![dead(Bullet::new(865, 300, Direction::EAST)), Bullet::new(405, 300, Direction::EAST)]
    );
    assert_eq!(
        g.enemy_bullets,
        vec![dead(Bullet::new(30, 400, Direction::WEST)), Bullet::new(400, 395, Direction::NORTH)]
    );
    assert_eq!((g.score, g.player.health, g.fire_cooldown), (0, 3, 0));
}

#[test]
fn bullet_meets_any_of_the_walls() {
    let walls = vec![NOWHERE, [100, 100, 200, 120], NOWHERE];
    assert!(bullet_meets_wall(&Bullet::new(150, 110, Direction::EAST), &walls));
    assert!(!bullet_meets_wall(&Bullet::new(150, 200, Direction::EAST), &walls));
    assert!(!bullet_meets_wall(&Bullet::new(150, 110, Direction::EAST), &Vec::new()));
}

#[test]
fn enemy_bullets_wound_the_player() {
    let mut g = Game::new(900, 600);
    g.enemy_bullets.push(Bullet::new(95, 300, Direction::WEST)); // lands 15 away
    g.enemy_bullets.push(Bullet::new(300, 300, Direction::WEST));
    g.enemy_bullets.push(Bullet::new(75, 280, Direction::SOUTH)); // lands 15 away
    assert_eq!(g.enemy_bullet_check(), Some(Cue::PlayerHit));
    assert_eq!(g.player.health, 1);
    assert_eq!(g.fire_cooldown, FIRE_COOLDOWN);
    assert_eq!(
        g.enemy_bullets,
        vec![
            dead(Bullet::new(90, 300, Direction::WEST)),
            Bullet::new(295, 300, Direction::WEST),
            dead(Bullet::new(75, 285, Direction::SOUTH)),
        ]
    );
    assert_eq!((g.player.pos.x, g.player.pos.y), (75, 300));
}

#[test]
fn health_does_not_fall_below_zero_in_a_volley() {
    let mut g = Game::new(900, 600);
    g.player.health = 1;
    for _ in 0..4 {
        g.enemy_bullets.push(Bullet::new(95, 300, Direction::WEST));
    }
    g.fire_cooldown = 1;
    assert_eq!(g.enemy_bullet_check(), None);
    assert_eq!(g.player.health, 0);
    assert!(g.enemy_bullets.iter().all(|b| !b.alive));
}

#[test]
fn prune_keeps_the_living_in_order() {
    let mut g = Game::new(900, 600);
    g.player_bullets.push(Bullet::new(1, 0, Direction::EAST));
    g.player_bullets.push(dead(Bullet::new(2, 0, Direction::EAST)));
    g.player_bullets.push(Bullet::new(3, 0, Direction::EAST));
    g.enemy_bullets.push(dead(Bullet::new(4, 0, Direction::EAST)));
    g.enemies.push(dead_enemy(5, 0));
    g.enemies.push(Enemy::new(6, 0));
    g.enemies.push(Enemy::new(7, 0));
    g.enemies.push(dead_enemy(8, 0));
    g.prune();
    assert_eq!(
        g.player_bullets,
        vec![Bullet::new(1, 0, Direction::EAST), Bullet::new(3, 0, Direction::EAST)]
    );
    assert!(g.enemy_bullets.is_empty());
    assert_eq!(g.enemies, vec![Enemy::new(6, 0), Enemy::new(7, 0)]);
}

#[test]
fn retain_live_on_empty_and_full() {
    let mut none: Vec<Bullet> = Vec::new();
    retain_live_bullets(&mut none);
    assert!(none.is_empty());
    let mut all = vec![Enemy::new(1, 1), Enemy::new(2, 2)];
    retain_live_enemies(&mut all);
    assert_eq!(all, vec![Enemy::new(1, 1), Enemy::new(2, 2)]);
    let mut gone = vec![dead_enemy(1, 1)];
    retain_live_enemies(&mut gone);
    assert!(gone.is_empty());
}

#[test]
fn contact_checks_the_walls_before_the_player() {
    let player = Player::new(75, 300);
    let touching = Enemy::new(80, 300);
    let apart = Enemy::new(500, 300);
    let no_walls: Vec<[i32; 4]> = Vec::new();
    assert_eq!(contact(&touching, &player, &no_walls), Contact::Player);
    assert_eq!(contact(&apart, &player, &no_walls), Contact::Free);
    assert_eq!(contact(&touching, &player, &vec![NOWHERE, NOWHERE]), Contact::Player);
    assert_eq!(contact(&touching, &player, &vec![NOWHERE, EVERYWHERE]), Contact::Wall);
    assert_eq!(contact(&touching, &player, &vec![EVERYWHERE, NOWHERE]), Contact::Wall);
    assert_eq!(contact(&apart, &player, &vec![NOWHERE, EVERYWHERE]), Contact::Wall);
    assert_eq!(contact(&apart, &player, &vec![NOWHERE, NOWHERE]), Contact::Free);
}

#[test]
fn enemy_touches_any_of_the_walls() {
    let walls = vec![NOWHERE, [100, 100, 200, 120], NOWHERE];
    assert!(enemy_touches_wall(&Enemy::new(150, 110), &walls));
    assert!(enemy_touches_wall(&Enemy::new(60, 60), &walls));
    assert!(!enemy_touches_wall(&Enemy::new(59, 60), &walls));
    assert!(!enemy_touches_wall(&Enemy::new(150, 110), &Vec::new()));
}

#[test]
fn an_enemy_on_a_wall_and_on_the_player_dies_on_the_wall() {
    for _ in 0..100 {
        let mut g = Game::new(900, 600);
        g.walls.push([0, 0, 1, 1]);
        g.walls.push([90, 90, 200, 200]);
        g.player.pos.x = 100;
        g.player.pos.y = 100;
        g.enemies.push(Enemy::new(100, 100));
        assert_eq!(g.enemy_update(), Some(Cue::EnemyKilled));
        assert!(!g.enemies[0].alive);
        assert_eq!(g.score, 50);
        assert_eq!(g.player.health, 3);
        assert_eq!((g.player.pos.x, g.player.pos.y), (100, 100));
    }
}

#[test]
fn enemy_fire_is_held_back_by_the_cooldown() {
    let mut g = Game::new(900, 600);
    g.enemies.push(Enemy::new(500, 100));
    let mut west = Enemy::new(600, 200);
    west.dir = Direction::WEST;
    g.enemies.push(west);
    assert_eq!(g.enemy_fire(1), Some(Cue::EnemyFire));
    assert_eq!(g.enemy_bullets, vec![Bullet::new(600, 200, Direction::WEST)]);
    assert_eq!(g.fire_cooldown, FIRE_COOLDOWN);
    assert_eq!(g.enemy_fire(0), None);
    assert_eq!(g.enemy_bullets.len(), 1);
    g.fire_cooldown = 0;
    assert_eq!(g.enemy_fire(0), Some(Cue::EnemyFire));
    assert_eq!(g.enemy_bullets[1], Bullet::new(500, 100, Direction::EAST));
}

#[test]
fn enemies_shoot_now_and_then() {
    assert_eq!(ENEMY_FIRE_DRAW, 5);
    let mut shots = 0;
    for _ in 0..20_000 {
        let mut g = Game::new(900, 600);
        g.enemies.push(Enemy::new(500, 100));
        g.enemies.push(Enemy::new(600, 200));
        match g.enemy_chance_shoot() {
            Some(cue) => {
                assert_eq!(cue, Cue::EnemyFire);
                assert_eq!(g.enemy_bullets.len(), 1);
                let b = g.enemy_bullets[0];
                assert!(b == Bullet::new(500, 100, Direction::EAST)
                    || b == Bullet::new(600, 200, Direction::EAST));
                assert_eq!(g.fire_cooldown, FIRE_COOLDOWN);
                shots += 1;
            }
            None => {
                assert!(g.enemy_bullets.is_empty());
                assert_eq!(g.fire_cooldown, 0);
            }
        }
        assert_eq!(g.enemies.len(), 2);
    }
    // about one chance in 96 at level 1
    assert!(shots > 0);
    assert!(shots < 2_000);
}

#[test]
fn no_enemy_no_shot() {
    let mut g = Game::new(900, 600);
    for _ in 0..2_000 {
        assert_eq!(g.enemy_chance_shoot(), None);
    }
    assert!(g.enemy_bullets.is_empty());
    let mut cooling = Game::new(900, 600);
    cooling.enemies.push(Enemy::new(500, 100));
    cooling.fire_cooldown = 1;
    for _ in 0..2_000 {
        assert_eq!(cooling.enemy_chance_shoot(), None);
    }
    assert!(cooling.enemy_bullets.is_empty());
}

#[test]
fn enemy_update_stops_at_the_first_contact() {
    let mut g = Game::new(900, 600);
    g.walls.push([600, 0, 700, 600]);
    g.enemies.push(Enemy::new(300, 100));
    g.enemies.push(Enemy::new(650, 100)); // in the wall
    g.enemies.push(Enemy::new(660, 100)); // in the wall too
    assert_eq!(g.enemy_update(), Some(Cue::EnemyKilled));
    assert!(g.enemies[0].alive);
    assert!(!g.enemies[1].alive);
    assert_eq!(g.enemies[2], Enemy::new(660, 100));
    assert_eq!(g.score, 50);
    assert_eq!(g.player, Player::new(75, 300));
    // the next turn ends at the same enemy: it is dead, not gone
    assert_eq!(g.enemy_update(), None);
    assert_eq!(g.score, 100);
    assert_eq!(g.enemies[2], Enemy::new(660, 100));
}

#[test]
fn an_enemy_that_catches_the_player_costs_a_life() {
    let mut g = Game::new(900, 600);
    g.walls.push(NOWHERE);
    g.enemies.push(Enemy::new(80, 300));
    g.enemies.push(Enemy::new(70, 300));
    assert_eq!(g.enemy_update(), Some(Cue::PlayerHit));
    assert!(!g.enemies[0].alive);
    assert_eq!(g.enemies[1], Enemy::new(70, 300));
    assert_eq!(g.player.health, 2);
    assert_eq!(g.score, 0);
    assert!(!in_reserved_zone(&g.player.pos, 600));
    assert!(45 <= g.player.pos.x && g.player.pos.x < 850);
    assert_eq!(g.fire_cooldown, FIRE_COOLDOWN);
}

#[test]
fn enemies_catch_the_player_in_an_arena_without_walls() {
    let mut g = Game::new(900, 600);
    g.enemies.push(Enemy::new(80, 300));
    assert_eq!(g.enemy_update(), Some(Cue::PlayerHit));
    assert!(!g.enemies[0].alive);
    assert_eq!(g.player.health, 2);
    assert_eq!(g.score, 0);
    assert!(!in_reserved_zone(&g.player.pos, 600));
}

#[test]
fn enemies_that_touch_nothing_all_take_their_tick() {
    let mut moved = 0;
    for _ in 0..300 {
        let mut g = Game::new(900, 600);
        g.walls.push(NOWHERE);
        for i in 0..10 {
            g.enemies.push(Enemy::new(500, 100 + 40 * i));
        }
        assert_eq!(g.enemy_update(), None);
        for (i, e) in g.enemies.iter().enumerate() {
            let start = Enemy::new(500, 100 + 40 * i as i32);
            if *e != start {
                let mut stepped = start;
                stepped.move_toward_player(75, 300);
                assert_eq!(*e, stepped);
                moved += 1;
            }
        }
        assert_eq!((g.score, g.player.health), (0, 3));
    }
    assert!(moved > 0);
}

#[test]
fn a_frozen_game_does_not_tick() {
    let mut g = Game::new(900, 600);
    g.walls.push(EVERYWHERE);
    g.player_bullets.push(Bullet::new(75, 300, Direction::EAST));
    g.enemy_bullets.push(Bullet::new(95, 300, Direction::WEST));
    g.enemies.push(Enemy::new(100, 300));
    g.fire_cooldown = 100;
    g.won = true;
    g.level = 5;
    let cues = g.on_update(50);
    assert!(cues.is_empty());
    assert_eq!(g.player_bullets, vec![Bullet::new(75, 300, Direction::EAST)]);
    assert_eq!(g.enemy_bullets, vec![Bullet::new(95, 300, Direction::WEST)]);
    assert_eq!(g.enemies, vec![Enemy::new(100, 300)]);
    assert_eq!(g.player, Player::new(75, 300));
    assert_eq!((g.score, g.level, g.fire_cooldown), (0, 5, 100));
    assert!(g.won && !g.game_over);
}

#[test]
fn reaching_the_exit_starts_the_next_level() {
    let mut g = Game::new(900, 600);
    g.make_level_borders();
    g.player.pos.x = 450;
    g.player.pos.y = 35;
    g.player.health = 1;
    g.player.dir = Direction::NORTH;
    g.player.is_moving = true;
    g.player_bullets.push(Bullet::new(450, 300, Direction::WEST));
    g.score = 300;
    g.move_player();
    assert_eq!((g.player.pos.x, g.player.pos.y), (450, 30));
    assert!(g.on_update(16_667).is_empty());
    assert_eq!(g.level, 1);
    g.move_player();
    assert_eq!((g.player.pos.x, g.player.pos.y), (450, 25));
    assert!(g.on_update(16_667).is_empty());
    assert_eq!(g.level, 2);
    assert!(!g.new_level);
    assert!(!g.won && !g.game_over);
    assert_eq!((g.player.pos.x, g.player.pos.y), (75, 300));
    assert_eq!(g.player.health, 3);
    assert!(g.player_bullets.is_empty());
    assert_eq!(g.enemies.len(), 8);
    assert!(g.enemies.iter().all(|e| e.alive && !in_reserved_zone(&e.pos, 600)));
    assert_eq!(g.score, 300);
    // standing at the start, the level does not go up again
    g.player.is_moving = false;
    g.on_update(16_667);
    assert_eq!(g.level, 2);
    assert!(!g.new_level);
}

#[test]
fn the_game_is_won_at_level_five() {
    let mut g = Game::new(900, 600);
    g.make_level_borders();
    g.level = 4;
    g.player.pos.x = 450;
    g.player.pos.y = 20;
    g.player.health = 2;
    let cues = g.on_update(16_667);
    assert!(cues.is_empty());
    assert_eq!(g.level, 5);
    assert!(g.won);
    assert!(!g.game_over);
    assert!(!g.new_level);
    // the player stays where it won, and no wave is spawned
    assert_eq!((g.player.pos.x, g.player.pos.y), (450, 20));
    assert_eq!(g.player.health, 2);
    assert!(g.enemies.is_empty());
    g.on_update(16_667);
    assert_eq!(g.level, 5);
}

#[test]
fn a_lost_game_is_not_won_in_the_same_tick() {
    let mut g = Game::new(900, 600);
    g.walls.push(NOWHERE);
    g.level = 4;
    g.player.pos.x = 450;
    g.player.pos.y = 20;
    g.player.health = 1;
    g.enemy_bullets.push(Bullet::new(470, 20, Direction::WEST)); // lands 15 away
    let cues = g.on_update(FIRE_COOLDOWN);
    assert_eq!(cues, vec![Cue::PlayerHit, Cue::PlayerDefeated]);
    assert!(g.game_over);
    assert!(!g.won);
    assert_eq!(g.level, 4);
    assert!(!g.new_level);
    assert!(g.enemy_bullets.is_empty());
}

#[test]
fn a_tick_cools_down_before_the_enemies_turn() {
    let mut g = Game::new(900, 600);
    g.walls.push(EVERYWHERE);
    g.player.health = 3;
    g.player_bullets.push(Bullet::new(95, 100, Direction::EAST));
    g.enemies.push(Enemy::new(120, 100));
    // the kill triggers its cue, the cooldown runs out within the tick,
    // and the wall hit triggers the next
    let cues = g.on_update(FIRE_COOLDOWN);
    assert_eq!(cues, vec![Cue::EnemyKilled, Cue::PlayerHit]);
    assert_eq!(g.score, 50);
    assert_eq!(g.player.health, 2);
    assert!(g.enemies.is_empty());
}

#[test]
fn note_appends_a_cue() {
    let mut cues = vec![Cue::PlayerHit];
    note(&mut cues, None);
    assert_eq!(cues, vec![Cue::PlayerHit]);
    note(&mut cues, Some(Cue::EnemyFire));
    assert_eq!(cues, vec![Cue::PlayerHit, Cue::EnemyFire]);
}

#[test]
fn begin_level_does_nothing_without_a_new_level() {
    let mut g = Game::new(900, 600);
    g.player.health = 1;
    g.player_bullets.push(Bullet::new(1, 1, Direction::EAST));
    g.begin_level();
    assert_eq!(g.player.health, 1);
    assert_eq!(g.player_bullets.len(), 1);
    assert!(g.enemies.is_empty());
    g.new_level = true;
    g.level = 3;
    g.begin_level();
    assert_eq!(g.player.health, 3);
    assert!(g.player_bullets.is_empty());
    assert_eq!(g.enemies.len(), 10);
    assert!(!g.new_level);
    assert!(!g.won);
}

#[test]
fn enemies_fire_on_their_draw_only() {
    for chance in 1..97u64 {
        let mut g = Game::new(900, 600);
        let mut west = Enemy::new(600, 200);
        west.dir = Direction::WEST;
        g.enemies.push(west);
        let cue = g.enemy_shoot_on(chance);
        if chance == ENEMY_FIRE_DRAW {
            assert_eq!(cue, Some(Cue::EnemyFire));
            assert_eq!(g.enemy_bullets, vec![Bullet::new(600, 200, Direction::WEST)]);
            assert_eq!(g.fire_cooldown, FIRE_COOLDOWN);
        } else {
            assert_eq!(cue, None);
            assert!(g.enemy_bullets.is_empty());
            assert_eq!(g.fire_cooldown, 0);
        }
        assert_eq!(g.enemies, vec![west]);
    }
}

#[test]
fn the_fire_draw_needs_an_enemy_and_a_due_cue() {
    let mut empty = Game::new(900, 600);
    assert_eq!(empty.enemy_shoot_on(ENEMY_FIRE_DRAW), None);
    assert!(empty.enemy_bullets.is_empty());
    assert_eq!(empty.fire_cooldown, 0);

    let mut cooling = Game::new(900, 600);
    cooling.enemies.push(Enemy::new(500, 100));
    cooling.fire_cooldown = 1;
    assert_eq!(cooling.enemy_shoot_on(ENEMY_FIRE_DRAW), None);
    assert!(cooling.enemy_bullets.is_empty());
    assert_eq!(cooling.fire_cooldown, 1);

    let mut two = Game::new(900, 600);
    two.enemies.push(Enemy::new(500, 100));
    two.enemies.push(Enemy::new(600, 200));
    assert_eq!(two.enemy_shoot_on(ENEMY_FIRE_DRAW), Some(Cue::EnemyFire));
    let b = two.enemy_bullets[0];
    assert!(b == Bullet::new(500, 100, Direction::EAST)
        || b == Bullet::new(600, 200, Direction::EAST));
}

#[test]
fn wall_hit_takes_a_life_places_and_throws_back() {
    let mut g = Game::new(900, 600);
    g.player.dir = Direction::NORTH;
    g.player.is_moving = true;
    g.score = 150;
    assert_eq!(g.wall_hit(Vector::new(500, 100)), Some(Cue::PlayerHit));
    assert_eq!((g.player.pos.x, g.player.pos.y), (500, 150));
    assert_eq!(g.player.health, 2);
    assert_eq!(g.player.dir, Direction::NORTH);
    assert!(g.player.is_moving);
    assert_eq!(g.fire_cooldown, FIRE_COOLDOWN);
    assert_eq!(g.score, 150);
    g.player.dir = Direction::EAST;
    assert_eq!(g.wall_hit(Vector::new(60, 60)), None);
    assert_eq!((g.player.pos.x, g.player.pos.y), (10, 60));
    assert_eq!(g.player.health, 1);
    g.wall_hit(Vector::new(60, 60));
    g.wall_hit(Vector::new(60, 60));
    assert_eq!(g.player.health, 0);
}

#[test]
fn a_wall_collision_costs_one_life() {
    for _ in 0..200 {
        let mut g = Game::new(900, 600);
        // the first wall lies under the player's start, the others far off
        g.walls.push([60, 280, 100, 340]);
        for _ in 0..8 {
            g.walls.push(NOWHERE);
        }
        g.score = 100;
        g.enemies.push(Enemy::new(700, 400));
        g.enemy_bullets.push(Bullet::new(800, 100, Direction::WEST));
        assert_eq!(g.wall_update(), Some(Cue::PlayerHit));
        assert_eq!(g.player.health, 2);
        assert_eq!(g.player.dir, Direction::EAST);
        assert_eq!((g.score, g.level), (100, 1));
        assert_eq!(g.enemies, vec![Enemy::new(700, 400)]);
        assert_eq!(g.enemy_bullets, vec![Bullet::new(800, 100, Direction::WEST)]);
        assert!(g.player_bullets.is_empty());
    }
}

#[test]
fn a_later_wall_hits_only_a_player_that_touches_it() {
    for _ in 0..200 {
        let mut g = Game::new(900, 600);
        // the second wall covers the left strip, the third the rest
        g.walls.push([60, 280, 100, 340]);
        g.walls.push([-100, -100, 215, 700]);
        g.walls.push([216, -100, 1000, 700]);
        g.wall_update();
        let lost = 3 - g.player.health;
        assert!(lost == 2 || lost == 3);
        assert!(45 - 50 <= g.player.pos.x && g.player.pos.x < 850);
    }
}
