use thunder::entities::{
    Bullet, BulletConfig, BulletDirection, GameState, GatlingGun, HittingEvent, Laser, Plane,
};
use thunder::geom::Vec2i;
use thunder::timer::{Timer, TimerMode};
use thunder::world::{World, PLAYER_MAX_X, PLAYER_MIN_X, PLAYER_MIN_Y};

fn still_bullet_at(x: i64, y: i64) -> Bullet {
    Bullet { pos: Vec2i { x, y }, radius: 10_000, vel: Vec2i { x: 0, y: 0 } }
}

fn enemy_at(id: u64, x: i64, y: i64, hp: u32) -> Plane {
    Plane {
        id,
        pos: Vec2i { x, y },
        scale: Vec2i { x: 30_000, y: 30_000 },
        hp,
        gun: GatlingGun {
            bullet_config: BulletConfig {
                relative_position: Vec2i { x: 0, y: -50_000 },
                diameter: 20_000,
                speed: 300,
                direction: BulletDirection::Fix(Vec2i { x: 0, y: -1000 }),
            },
            shoot_timer: Timer::new(2_000, TimerMode::Repeating),
        },
        laser: Laser { enabled: false, duration_timer: None },
    }
}

#[test]
fn new_world_is_set_up_for_the_level() {
    let w = World::new(3);
    assert_eq!(w.level, 3);
    assert_eq!(w.score, 0);
    assert_eq!(w.wave, 0);
    assert_eq!(w.state, GameState::Game);
    assert_eq!(w.walls.len(), 4);
    assert!(w.enemies.is_empty());
    assert!(w.bullets.is_empty());
    assert!(w.star.is_none());
    assert_eq!(w.player_hp(), 20);
    assert_eq!(w.enemy_generate_timer.duration_ms, 3_000);
}

#[test]
fn player_movement_is_clamped_to_the_arena() {
    let mut w = World::new(3);
    // A long leftward, downward push runs into the near corner.
    for _ in 0..20 {
        w.move_player_plane(-1, -1, 1_000);
    }
    let p = w.player.unwrap();
    assert_eq!(p.pos.x, PLAYER_MIN_X);
    assert_eq!(p.pos.y, PLAYER_MIN_Y);
    // One rightward step of 100 ms at speed 300 moves 30_000.
    w.move_player_plane(1, 0, 100);
    assert_eq!(w.player.unwrap().pos.x, PLAYER_MIN_X + 30_000);
    for _ in 0..60 {
        w.move_player_plane(1, 0, 1_000);
    }
    assert_eq!(w.player.unwrap().pos.x, PLAYER_MAX_X);
}

#[test]
fn velocity_moves_bullets() {
    let mut w = World::new(3);
    w.bullets.push(Bullet {
        pos: Vec2i { x: 1_000, y: 2_000 },
        radius: 10_000,
        vel: Vec2i { x: 10, y: -20 },
    });
    w.apply_velocity(100);
    assert_eq!(w.bullets[0].pos, Vec2i { x: 2_000, y: 0 });
}

#[test]
fn player_gun_fires_on_its_cooldown() {
    let mut w = World::new(3);
    // Level 3: the player's gun fires every 400 ms, straight up at
    // speed 500 from the muzzle 50 units above the plane.
    w.shoot_gun(399);
    assert!(w.bullets.is_empty());
    w.shoot_gun(1);
    assert_eq!(w.bullets.len(), 1);
    assert_eq!(w.bullets[0].pos, Vec2i { x: 0, y: 50_000 });
    assert_eq!(w.bullets[0].vel, Vec2i { x: 0, y: 500 });
}

#[test]
fn wave_spawns_after_the_start_delay_and_advances_when_cleared() {
    // The first level's first wave: two enemies at 10 hit points
    // each. Destroying both advances the wave index from 0 to 1
    // exactly once; with more waves to come the game goes on.
    let mut w = World::new(1);
    let mut ev: Vec<HittingEvent> = Vec::new();

    w.generate_enemy(2_999);
    assert!(w.enemies.is_empty());
    w.generate_enemy(1);
    assert_eq!(w.enemies.len(), 2);
    assert_eq!(w.enemies[0].hp, 10);
    assert_eq!(w.enemies[1].hp, 10);
    assert!(w.enemy_generate_timer.paused);

    // While the wave is alive, the controller holds.
    w.check_for_next_wave();
    assert_eq!(w.wave, 0);

    // Ten bullets on each enemy's position: exactly lethal.
    for _ in 0..10 {
        let (e0, e1) = (w.enemies[0].pos, w.enemies[1].pos);
        w.bullets.push(still_bullet_at(e0.x, e0.y));
        w.bullets.push(still_bullet_at(e1.x, e1.y));
    }
    w.check_for_bullet_hitting(&mut ev);
    assert!(w.enemies.is_empty());
    assert!(w.bullets.is_empty());
    assert_eq!(w.score, 2);
    assert_eq!(ev.iter().filter(|e| **e == HittingEvent::HitTarget).count(), 20);

    w.check_for_next_wave();
    assert_eq!(w.wave, 1);
    assert_eq!(w.state, GameState::Game);
    assert!(!w.enemy_generate_timer.paused);
    assert_eq!(w.enemy_generate_timer.duration_ms, 3_000);

    // The advance happened exactly once: the controller now waits.
    w.check_for_next_wave();
    assert_eq!(w.wave, 1);
}

#[test]
fn clearing_the_last_wave_wins_the_level() {
    let mut w = World::new(1);
    w.wave = 3;
    w.enemy_generate_timer.pause();
    w.check_for_next_wave();
    assert_eq!(w.wave, 4);
    assert_eq!(w.state, GameState::Win);
}

#[test]
fn clearing_the_last_wave_of_the_final_level_completes_the_game() {
    let mut w = World::new(5);
    w.wave = 5;
    w.enemy_generate_timer.pause();
    w.check_for_next_wave();
    assert_eq!(w.state, GameState::Completion);
}

#[test]
fn twenty_lethal_hits_lose_exactly_on_the_twentieth() {
    // The player starts at 20 hit points; single-damage hits take the
    // game to Lost exactly on the twentieth, never earlier.
    let mut w = World::new(3);
    let mut ev: Vec<HittingEvent> = Vec::new();
    for round in 1..=20u32 {
        let p = w.player.unwrap().pos;
        w.bullets.push(still_bullet_at(p.x, p.y));
        w.check_for_bullet_hitting(&mut ev);
        if round < 20 {
            assert_eq!(w.state, GameState::Game, "alive after hit {}", round);
            assert_eq!(w.player_hp(), 20 - round);
        } else {
            assert_eq!(w.state, GameState::Lose);
            assert!(w.player.is_none());
            assert_eq!(w.player_hp(), 0);
        }
    }
    // The player's destruction scores nothing.
    assert_eq!(w.score, 0);
}

#[test]
fn wall_hits_consume_the_bullet_and_change_nothing_else() {
    // Colliding projectiles with a wall, over and over: each one
    // reports a wall hit and despawns, and neither the score nor any
    // health ever moves.
    let mut w = World::new(3);
    w.enemies.push(enemy_at(900, 225_000, 150_000, 10));
    w.next_id = 901;
    for _ in 0..5 {
        let mut ev: Vec<HittingEvent> = Vec::new();
        // On the left wall's centre line.
        w.bullets.push(still_bullet_at(-450_000, 0));
        w.check_for_bullet_hitting(&mut ev);
        assert!(w.bullets.is_empty());
        assert_eq!(ev, vec![HittingEvent::HitWall]);
        assert_eq!(w.score, 0);
        assert_eq!(w.player_hp(), 20);
        assert_eq!(w.enemies[0].hp, 10);
        assert_eq!(w.state, GameState::Game);
    }
}

#[test]
fn a_bullet_damages_at_most_one_target() {
    // Two enemies stacked on the same spot; one bullet. Only the
    // first in storage order takes the hit.
    let mut w = World::new(3);
    w.enemies.push(enemy_at(100, 0, 100_000, 5));
    w.enemies.push(enemy_at(101, 0, 100_000, 5));
    w.next_id = 102;
    let mut ev: Vec<HittingEvent> = Vec::new();
    w.bullets.push(still_bullet_at(0, 100_000));
    w.check_for_bullet_hitting(&mut ev);
    assert_eq!(w.enemies[0].id, 100);
    assert_eq!(w.enemies[0].hp, 4);
    assert_eq!(w.enemies[1].hp, 5);
    assert_eq!(ev, vec![HittingEvent::HitTarget]);
}

#[test]
fn full_ticks_drive_the_first_wave_in() {
    let mut w = World::new(1);
    let mut ev: Vec<HittingEvent> = Vec::new();
    for _ in 0..29 {
        w.tick(false, 0, 0, 100, &mut ev);
    }
    assert!(w.enemies.is_empty());
    w.tick(false, 0, 0, 100, &mut ev);
    assert_eq!(w.enemies.len(), 2);
    assert_eq!(w.wave, 0);
    assert_eq!(w.state, GameState::Game);
}

#[test]
fn score_and_wave_never_decrease_over_a_long_run() {
    let mut w = World::new(2);
    let mut last_score = 0u32;
    let mut last_wave = 0u32;
    let mut last_player_hp = w.player_hp();
    for _ in 0..600 {
        if w.state != GameState::Game {
            break;
        }
        let mut ev: Vec<HittingEvent> = Vec::new();
        w.tick(true, 1, 0, 50, &mut ev);
        assert!(w.score >= last_score);
        assert!(w.wave >= last_wave);
        assert!(w.wave <= last_wave + 1);
        if w.player.is_some() {
            assert!(w.player_hp() <= last_player_hp);
            last_player_hp = w.player_hp();
        }
        last_score = w.score;
        last_wave = w.wave;
    }
}

#[test]
fn score_sticks_at_its_ceiling() {
    // The score saturates rather than wrapping around.
    let mut w = World::new(3);
    w.score = u32::MAX;
    w.enemies.push(enemy_at(700, 0, 100_000, 1));
    w.next_id = 701;
    let mut ev: Vec<HittingEvent> = Vec::new();
    w.bullets.push(still_bullet_at(0, 100_000));
    w.check_for_bullet_hitting(&mut ev);
    assert!(w.enemies.is_empty());
    assert_eq!(w.score, u32::MAX);
}

#[test]
fn a_tick_moves_the_player_by_one_speed_step() {
    let mut w = World::new(3);
    let mut ev: Vec<HittingEvent> = Vec::new();
    w.tick(false, 1, 0, 16, &mut ev);
    // One 16 ms step at speed 300 milli-units per millisecond.
    assert_eq!(w.player.unwrap().pos.x, 4_800);
    assert_eq!(w.player.unwrap().pos.y, 0);
}

#[test]
fn health_only_falls_over_repeated_passes() {
    // Damage monotonicity on concrete values: an enemy's hit points
    // only ever fall from pass to pass, and once destroyed it never
    // returns.
    let mut w = World::new(3);
    w.enemies.push(enemy_at(300, 0, 100_000, 5));
    w.next_id = 301;
    let mut last_hp = 5u32;
    for _ in 0..8 {
        let mut ev: Vec<HittingEvent> = Vec::new();
        w.bullets.push(still_bullet_at(0, 100_000));
        w.check_for_bullet_hitting(&mut ev);
        match w.enemies.iter().find(|e| e.id == 300) {
            Some(e) => {
                assert!(e.hp <= last_hp);
                assert!(e.hp >= 1);
                last_hp = e.hp;
            }
            None => {
                assert_eq!(w.score, 1);
            }
        }
    }
    assert!(w.enemies.iter().all(|e| e.id != 300));
}
