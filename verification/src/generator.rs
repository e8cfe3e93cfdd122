//! Constructors for the simulated entities: the player's plane, the
//! enemies of a wave, projectiles, beam segments and pickups.
//!
//! Spawned planes carry the placeholder identity `0`; the world
//! assigns a fresh identity when it adopts them.

use vstd::prelude::*;
use crate::clamp_pos;
use crate::clamp_pos_spec;
use crate::config::{
    wave_size_spec, wave_table_spec, EnemyConfig, PositionConfig, WaveConfig, BOTTOM_WALL, BULLET_DIAMETER,
    BULLET_RELATIVE_POSITION_X, BULLET_RELATIVE_POSITION_Y, BULLET_SHOOTING_INTERVAL_MS,
    GAP_BETWEEN_PLANE_AND_WALL, LASER_DURATION_MS, LASER_RAY_GAP, LASER_RAY_WIDTH, LEFT_WALL,
    PLANE_SIZE, PLAYER_PLANE_HP, RIGHT_WALL, TOP_WALL, USER_BULLET_SPEED, WALL_THICKNESS,
};
use crate::entities::{
    in_pos_range, Bullet, BulletConfig, BulletDirection, GatlingGun, Laser, LaserRay, LaserStar,
    Plane,
};
use crate::geom::{velocity_toward, velocity_toward_spec, Vec2i};
use crate::timer::{Timer, TimerMode};
use crate::POS_LIMIT;

verus! {

/// The player's hit points by level.
pub open spec fn user_plane_hp_spec(level: int) -> u32 {
    if level == 1 {
        100
    } else if level == 2 {
        400
    } else {
        PLAYER_PLANE_HP
    }
}

/// The player's bullet speed by level.
pub open spec fn user_bullet_speed_spec(level: int) -> i64 {
    if level == 1 {
        300
    } else if level == 2 {
        400
    } else {
        USER_BULLET_SPEED
    }
}

/// The player's shot interval by level, in milliseconds.
pub open spec fn user_shoot_interval_spec(level: int) -> u64 {
    if level == 1 {
        600
    } else if level == 2 {
        1500
    } else {
        BULLET_SHOOTING_INTERVAL_MS
    }
}

/// The player's starting laser charge by level, in milliseconds.
pub open spec fn user_laser_duration_spec(level: int) -> u64 {
    if level == 1 {
        0
    } else {
        LASER_DURATION_MS
    }
}

/// The player's plane as level entry creates it: at the origin, gun
/// aimed straight up, laser charge armed.
pub open spec fn user_plane_spec(level: int) -> Plane {
    Plane {
        id: 0,
        pos: Vec2i { x: 0, y: 0 },
        scale: Vec2i { x: PLANE_SIZE, y: PLANE_SIZE },
        hp: user_plane_hp_spec(level),
        gun: GatlingGun {
            bullet_config: BulletConfig {
                relative_position: Vec2i {
                    x: BULLET_RELATIVE_POSITION_X,
                    y: BULLET_RELATIVE_POSITION_Y,
                },
                diameter: BULLET_DIAMETER,
                speed: user_bullet_speed_spec(level),
                direction: BulletDirection::Fix(Vec2i { x: 0, y: 1000 }),
            },
            shoot_timer: Timer::new_spec(user_shoot_interval_spec(level), TimerMode::Repeating),
        },
        laser: Laser {
            enabled: true,
            duration_timer: Some(Timer::new_spec(user_laser_duration_spec(level), TimerMode::Once)),
        },
    }
}

/// Build the player's plane for the given level.
pub fn gen_user_plane(level: u32) -> (p: Plane)
    requires
        1 <= level <= 5,
    ensures
        p == user_plane_spec(level as int),
        p.valid(),
{
    let hp: u32 = match level {
        1 => 100,
        2 => 400,
        _ => PLAYER_PLANE_HP,
    };
    let speed: i64 = match level {
        1 => 300,
        2 => 400,
        _ => USER_BULLET_SPEED,
    };
    let interval: u64 = match level {
        1 => 600,
        2 => 1500,
        _ => BULLET_SHOOTING_INTERVAL_MS,
    };
    let laser_ms: u64 = match level {
        1 => 0,
        _ => LASER_DURATION_MS,
    };
    Plane {
        id: 0,
        pos: Vec2i { x: 0, y: 0 },
        scale: Vec2i { x: PLANE_SIZE, y: PLANE_SIZE },
        hp,
        gun: GatlingGun {
            bullet_config: BulletConfig {
                relative_position: Vec2i {
                    x: BULLET_RELATIVE_POSITION_X,
                    y: BULLET_RELATIVE_POSITION_Y,
                },
                diameter: BULLET_DIAMETER,
                speed,
                direction: BulletDirection::Fix(Vec2i { x: 0, y: 1000 }),
            },
            shoot_timer: Timer::new(interval, TimerMode::Repeating),
        },
        laser: Laser { enabled: true, duration_timer: Some(Timer::new(laser_ms, TimerMode::Once)) },
    }
}

/// A freshly spawned enemy agrees with its wave-table entry: placed
/// as the position policy admits, sized and armed as configured, its
/// heading resolved from the direction policy, its cooldown fresh,
/// its laser dark.
pub open spec fn enemy_matches_config(p: Plane, cfg: EnemyConfig) -> bool {
    &&& cfg.position.admits(p.pos)
    &&& p.scale == cfg.scale
    &&& p.hp == cfg.hp
    &&& p.gun.bullet_config.relative_position == cfg.bullet_relative_position
    &&& p.gun.bullet_config.diameter == cfg.bullet_diameter
    &&& p.gun.bullet_config.speed == cfg.bullet_speed
    &&& cfg.bullet_direction.resolves_to(p.gun.bullet_config.direction)
    &&& p.gun.shoot_timer == Timer::new_spec(cfg.shooting_interval, TimerMode::Repeating)
    &&& p.laser == (Laser { enabled: false, duration_timer: None::<Timer> })
}

/// Build one enemy from a wave-table entry, resolving its position
/// and heading policies.
fn gen_enemy(cfg: &EnemyConfig) -> (p: Plane)
    requires
        cfg.valid(),
    ensures
        p.valid(),
        p.id == 0,
        enemy_matches_config(p, *cfg),
{
    Plane {
        id: 0,
        pos: cfg.position.gen(),
        scale: cfg.scale,
        hp: cfg.hp,
        gun: GatlingGun {
            bullet_config: BulletConfig {
                relative_position: cfg.bullet_relative_position,
                diameter: cfg.bullet_diameter,
                speed: cfg.bullet_speed,
                direction: cfg.bullet_direction.gen(),
            },
            shoot_timer: Timer::new(cfg.shooting_interval, TimerMode::Repeating),
        },
        laser: Laser { enabled: false, duration_timer: None },
    }
}

/// Instantiate every enemy a wave entry describes, in table order:
/// the plane at index `i` matches the entry at index `i`.
pub fn gen_wave_from(config: &WaveConfig) -> (enemies: Vec<Plane>)
    requires
        config.valid(),
    ensures
        enemies@.len() == config.entries().len(),
        forall|i: int|
            0 <= i < enemies@.len() ==> (#[trigger] enemies@[i]).valid() && enemies@[i].id == 0
                && enemy_matches_config(enemies@[i], config.entries()[i]),
{
    match config {
        WaveConfig::Duplicate(c, n) => {
            let mut enemies: Vec<Plane> = Vec::new();
            let mut i: u32 = 0;
            while i < *n
                invariant
                    i <= *n,
                    c.valid(),
                    enemies@.len() == i,
                    forall|j: int|
                        0 <= j < enemies@.len() ==> (#[trigger] enemies@[j]).valid()
                            && enemies@[j].id == 0 && enemy_matches_config(enemies@[j], *c),
                decreases *n - i,
            {
                enemies.push(gen_enemy(c));
                i = i + 1;
            }
            enemies
        },
        WaveConfig::Detailed(v) => {
            let mut enemies: Vec<Plane> = Vec::new();
            let mut i: usize = 0;
            while i < v.len()
                invariant
                    i <= v@.len(),
                    forall|j: int| 0 <= j < v@.len() ==> (#[trigger] v@[j]).valid(),
                    enemies@.len() == i,
                    forall|j: int|
                        0 <= j < enemies@.len() ==> (#[trigger] enemies@[j]).valid()
                            && enemies@[j].id == 0 && enemy_matches_config(enemies@[j], v@[j]),
                decreases v@.len() - i,
            {
                enemies.push(gen_enemy(&v[i]));
                i = i + 1;
            }
            enemies
        },
    }
}

/// Look a wave up in the content table and instantiate its enemies:
/// the plane at index `i` matches the table entry at index `i`.
pub fn gen_wave(level: u32, wave: u32) -> (enemies: Vec<Plane>)
    requires
        1 <= level <= 5,
        wave < WaveConfig::wave_len_spec(level as int),
    ensures
        enemies@.len() == wave_size_spec(level as int, wave as int),
        forall|i: int|
            0 <= i < enemies@.len() ==> (#[trigger] enemies@[i]).valid() && enemies@[i].id == 0
                && enemy_matches_config(
                enemies@[i],
                wave_table_spec(level as int, wave as int)[i],
            ),
{
    let config = WaveConfig::get(level, wave);
    proof {
        assert(config.entries().len() == config.size());
    }
    gen_wave_from(&config)
}

/// The projectile a gun emits: spawned at the wielder's position plus
/// the muzzle offset (saturated into the coordinate range), aimed
/// along the gun's fixed heading, or at the player's position as it
/// is at this moment for a tracing gun.
pub open spec fn gen_bullet_spec(cfg: BulletConfig, weapon_location: Vec2i, player_plane_location: Vec2i) -> Bullet {
    let px = clamp_pos_spec(weapon_location.x + cfg.relative_position.x);
    let py = clamp_pos_spec(weapon_location.y + cfg.relative_position.y);
    let vel = match cfg.direction {
        BulletDirection::Fix(d) => velocity_toward_spec(d.x as int, d.y as int, cfg.speed as int),
        BulletDirection::Trace => velocity_toward_spec(
            player_plane_location.x - px,
            player_plane_location.y - py,
            cfg.speed as int,
        ),
    };
    Bullet {
        pos: Vec2i { x: px as i64, y: py as i64 },
        radius: (cfg.diameter as int / 2) as i64,
        vel: Vec2i { x: vel.0 as i64, y: vel.1 as i64 },
    }
}

/// Build the projectile a gun emits this instant.
pub fn gen_bullet(gun: &GatlingGun, weapon_location: Vec2i, player_plane_location: Vec2i) -> (b: Bullet)
    requires
        gun.valid(),
        in_pos_range(weapon_location),
        in_pos_range(player_plane_location),
    ensures
        b == gen_bullet_spec(gun.bullet_config, weapon_location, player_plane_location),
        b.valid(),
{
    let cfg = &gun.bullet_config;
    let px: i64 = clamp_pos(weapon_location.x + cfg.relative_position.x);
    let py: i64 = clamp_pos(weapon_location.y + cfg.relative_position.y);
    let vel: Vec2i = match cfg.direction {
        BulletDirection::Fix(d) => velocity_toward(d.x, d.y, cfg.speed),
        BulletDirection::Trace => velocity_toward(
            player_plane_location.x - px,
            player_plane_location.y - py,
            cfg.speed,
        ),
    };
    Bullet { pos: Vec2i { x: px, y: py }, radius: cfg.diameter / 2, vel }
}

/// The beam segment drawn this tick: a thin rectangle from just above
/// the wielder to the top wall.
pub open spec fn gen_laserray_spec(weapon_location: Vec2i) -> LaserRay {
    let height = TOP_WALL - WALL_THICKNESS - weapon_location.y;
    LaserRay {
        pos: Vec2i {
            x: weapon_location.x,
            y: (weapon_location.y + height / 2 + LASER_RAY_GAP) as i64,
        },
        scale: Vec2i { x: LASER_RAY_WIDTH, y: height as i64 },
    }
}

/// Build the beam segment for a wielder at the given position.
pub fn gen_laserray(weapon_location: Vec2i) -> (r: LaserRay)
    requires
        -POS_LIMIT <= weapon_location.x <= POS_LIMIT,
        BOTTOM_WALL <= weapon_location.y <= TOP_WALL - WALL_THICKNESS,
    ensures
        r == gen_laserray_spec(weapon_location),
        r.valid(),
{
    let height: i64 = TOP_WALL - WALL_THICKNESS - weapon_location.y;
    LaserRay {
        pos: Vec2i {
            x: weapon_location.x,
            y: weapon_location.y + height / 2 + LASER_RAY_GAP,
        },
        scale: Vec2i { x: LASER_RAY_WIDTH, y: height },
    }
}

/// The rectangle pickups spawn in: the arena, a plane's gap inside
/// the walls.
pub open spec fn star_region_spec() -> PositionConfig {
    PositionConfig::Random(
        Vec2i {
            x: (LEFT_WALL + GAP_BETWEEN_PLANE_AND_WALL) as i64,
            y: (RIGHT_WALL - GAP_BETWEEN_PLANE_AND_WALL) as i64,
        },
        Vec2i {
            x: (BOTTOM_WALL + GAP_BETWEEN_PLANE_AND_WALL) as i64,
            y: (TOP_WALL - GAP_BETWEEN_PLANE_AND_WALL) as i64,
        },
    )
}

/// Place a fresh laser pickup somewhere in the safe region.
pub fn gen_laser_star() -> (s: LaserStar)
    ensures
        star_region_spec().admits(s.pos),
        s.valid(),
{
    let region = PositionConfig::Random(
        Vec2i {
            x: LEFT_WALL + GAP_BETWEEN_PLANE_AND_WALL,
            y: RIGHT_WALL - GAP_BETWEEN_PLANE_AND_WALL,
        },
        Vec2i {
            x: BOTTOM_WALL + GAP_BETWEEN_PLANE_AND_WALL,
            y: TOP_WALL - GAP_BETWEEN_PLANE_AND_WALL,
        },
    );
    LaserStar { pos: region.gen() }
}

} // verus!
