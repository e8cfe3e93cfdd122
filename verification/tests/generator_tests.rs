use thunder::config::WaveConfig;
use thunder::entities::{BulletConfig, BulletDirection, GatlingGun};
use thunder::generator::{gen_bullet, gen_user_plane, gen_wave};
use thunder::geom::Vec2i;
use thunder::timer::{Timer, TimerMode};

#[test]
fn user_plane_varies_by_level() {
    let p1 = gen_user_plane(1);
    assert_eq!(p1.hp, 100);
    assert_eq!(p1.gun.bullet_config.speed, 300);
    assert_eq!(p1.gun.shoot_timer.duration_ms, 600);
    assert!(p1.laser.enabled);
    assert_eq!(p1.laser.duration_timer.unwrap().duration_ms, 0);

    let p2 = gen_user_plane(2);
    assert_eq!(p2.hp, 400);
    assert_eq!(p2.gun.bullet_config.speed, 400);
    assert_eq!(p2.gun.shoot_timer.duration_ms, 1_500);
    assert_eq!(p2.laser.duration_timer.unwrap().duration_ms, 10_000);

    let p3 = gen_user_plane(3);
    assert_eq!(p3.hp, 20);
    assert_eq!(p3.gun.bullet_config.speed, 500);
    assert_eq!(p3.gun.shoot_timer.duration_ms, 400);
    assert_eq!(p3.pos, Vec2i { x: 0, y: 0 });
    // The player's gun shoots straight up.
    assert!(matches!(
        p3.gun.bullet_config.direction,
        BulletDirection::Fix(Vec2i { x: 0, y: 1000 })
    ));
}

#[test]
fn first_wave_of_first_level_spawns_two_enemies_as_configured() {
    let enemies = gen_wave(1, 0);
    assert_eq!(enemies.len(), 2);
    assert_eq!(enemies[0].pos, Vec2i { x: 225_000, y: 150_000 });
    assert_eq!(enemies[1].pos, Vec2i { x: -225_000, y: 150_000 });
    for e in &enemies {
        assert_eq!(e.hp, 10);
        assert_eq!(e.gun.bullet_config.speed, 150);
        assert_eq!(e.gun.shoot_timer.duration_ms, 2_000);
        assert!(!e.laser.enabled);
        assert!(e.laser.duration_timer.is_none());
    }
}

#[test]
fn wave_sizes_match_the_table() {
    assert_eq!(gen_wave(1, 1).len(), 1);
    assert_eq!(gen_wave(1, 3).len(), 2);
    assert_eq!(gen_wave(3, 4).len(), 11);
    assert_eq!(gen_wave(4, 3).len(), 10);
    assert_eq!(gen_wave(5, 5).len(), 10);
}

#[test]
fn randomly_placed_enemies_land_in_their_rectangle() {
    // The second wave of the second level places one enemy on each
    // side of the arena.
    for _ in 0..20 {
        let enemies = gen_wave(2, 1);
        assert_eq!(enemies.len(), 2);
        assert!(-360_000 <= enemies[0].pos.x && enemies[0].pos.x < -90_000);
        assert!(90_000 <= enemies[1].pos.x && enemies[1].pos.x < 360_000);
        for e in &enemies {
            assert!(60_000 <= e.pos.y && e.pos.y < 240_000);
        }
    }
}

fn fixed_gun(direction: BulletDirection, speed: i64) -> GatlingGun {
    GatlingGun {
        bullet_config: BulletConfig {
            relative_position: Vec2i { x: 0, y: 50_000 },
            diameter: 20_000,
            speed,
            direction,
        },
        shoot_timer: Timer::new(400, TimerMode::Repeating),
    }
}

#[test]
fn bullet_spawns_at_the_muzzle_with_the_gun_heading() {
    let gun = fixed_gun(BulletDirection::Fix(Vec2i { x: 0, y: 1000 }), 500);
    let b = gen_bullet(&gun, Vec2i { x: 0, y: 0 }, Vec2i { x: 0, y: 0 });
    assert_eq!(b.pos, Vec2i { x: 0, y: 50_000 });
    assert_eq!(b.radius, 10_000);
    assert_eq!(b.vel, Vec2i { x: 0, y: 500 });
}

#[test]
fn trace_bullet_aims_at_the_player() {
    let gun = fixed_gun(BulletDirection::Trace, 500);
    // Muzzle at (0, -50_000) after the offset; player straight below.
    let b = gen_bullet(
        &gun,
        Vec2i { x: 0, y: -100_000 },
        Vec2i { x: 0, y: -250_000 },
    );
    assert_eq!(b.pos, Vec2i { x: 0, y: -50_000 });
    assert_eq!(b.vel, Vec2i { x: 0, y: -500 });
}

#[test]
fn trace_bullet_at_the_player_position_takes_the_default_heading() {
    // The degenerate aim vector: the muzzle coincides with the
    // player. The heading falls back to straight down instead of
    // being undefined.
    let gun = fixed_gun(BulletDirection::Trace, 300);
    let b = gen_bullet(
        &gun,
        Vec2i { x: 0, y: 0 },
        Vec2i { x: 0, y: 50_000 },
    );
    assert_eq!(b.pos, Vec2i { x: 0, y: 50_000 });
    assert_eq!(b.vel, Vec2i { x: 0, y: -300 });
}
