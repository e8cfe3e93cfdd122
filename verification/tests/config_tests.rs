use thunder::config::{
    BulletDirectionConfig, EnemyConfig, PositionConfig, WaveConfig, BULLET_DIAMETER,
    BULLET_SHOOTING_INTERVAL_MS, DEFAULT_BULLET_SPEED, ENEMY_PLANE_HP, PLANE_SIZE,
};
use thunder::entities::BulletDirection;
use thunder::geom::Vec2i;

#[test]
fn wave_counts_per_level() {
    assert_eq!(WaveConfig::get_wave_len(1), 4);
    assert_eq!(WaveConfig::get_wave_len(2), 4);
    assert_eq!(WaveConfig::get_wave_len(3), 5);
    assert_eq!(WaveConfig::get_wave_len(4), 5);
    assert_eq!(WaveConfig::get_wave_len(5), 6);
}

fn wave_size(c: &WaveConfig) -> usize {
    match c {
        WaveConfig::Duplicate(_, n) => *n as usize,
        WaveConfig::Detailed(v) => v.len(),
    }
}

#[test]
fn every_wave_entry_exists_with_its_size() {
    let sizes: [(u32, Vec<usize>); 5] = [
        (1, vec![2, 1, 1, 2]),
        (2, vec![1, 2, 3, 5]),
        (3, vec![3, 2, 3, 2, 11]),
        (4, vec![2, 3, 5, 10, 1]),
        (5, vec![2, 5, 4, 2, 1, 10]),
    ];
    for (level, per_wave) in sizes.iter() {
        assert_eq!(per_wave.len() as u32, WaveConfig::get_wave_len(*level));
        for (wave, expect) in per_wave.iter().enumerate() {
            let c = WaveConfig::get(*level, wave as u32);
            assert_eq!(wave_size(&c), *expect, "level {} wave {}", level, wave);
        }
    }
}

#[test]
fn first_wave_of_first_level_is_two_weak_escorts() {
    let c = WaveConfig::get(1, 0);
    let entries = match c {
        WaveConfig::Detailed(v) => v,
        WaveConfig::Duplicate(..) => panic!("expected a detailed wave"),
    };
    assert_eq!(entries.len(), 2);
    for e in &entries {
        assert_eq!(e.hp, 10);
        assert_eq!(e.bullet_speed, 150);
        assert_eq!(e.shooting_interval, 2_000);
        assert!(matches!(
            e.bullet_direction,
            BulletDirectionConfig::Determinate(Vec2i { x: 0, y: -1000 })
        ));
    }
    assert!(matches!(
        entries[0].position,
        PositionConfig::Determinate(Vec2i { x: 225_000, y: 150_000 })
    ));
    assert!(matches!(
        entries[1].position,
        PositionConfig::Determinate(Vec2i { x: -225_000, y: 150_000 })
    ));
}

#[test]
fn default_enemy_config_values() {
    let c = EnemyConfig::default();
    assert_eq!(c.hp, ENEMY_PLANE_HP);
    assert_eq!(c.scale, Vec2i { x: PLANE_SIZE, y: PLANE_SIZE });
    assert_eq!(c.bullet_speed, DEFAULT_BULLET_SPEED);
    assert_eq!(c.bullet_diameter, BULLET_DIAMETER);
    assert_eq!(c.shooting_interval, BULLET_SHOOTING_INTERVAL_MS);
    assert_eq!(c.bullet_relative_position, Vec2i { x: 0, y: -50_000 });
    match c.position {
        PositionConfig::Random(xr, yr) => {
            assert_eq!(xr, Vec2i { x: -390_000, y: 390_000 });
            assert_eq!(yr, Vec2i { x: 150_000, y: 240_000 });
        }
        PositionConfig::Determinate(_) => panic!("default position should be randomized"),
    }
}

#[test]
fn random_position_policy_stays_in_its_rectangle() {
    let cfg = PositionConfig::Random(
        Vec2i { x: -300, y: 400 },
        Vec2i { x: 10, y: 20 },
    );
    for _ in 0..200 {
        let p = cfg.gen();
        assert!(-300 <= p.x && p.x < 400);
        assert!(10 <= p.y && p.y < 20);
    }
}

#[test]
fn determinate_position_policy_is_exact() {
    let cfg = PositionConfig::Determinate(Vec2i { x: 7, y: -9 });
    assert_eq!(cfg.gen(), Vec2i { x: 7, y: -9 });
}

#[test]
fn random_direction_policy_stays_on_its_chord() {
    // The default fan runs from down-left to down-right: every
    // resolved heading keeps the same downward component while the
    // horizontal one sweeps the chord.
    let cfg = BulletDirectionConfig::default();
    for _ in 0..200 {
        match cfg.gen() {
            BulletDirection::Fix(d) => {
                assert_eq!(d.y, -1_000_000);
                assert!(-1_000_000 <= d.x && d.x <= 1_000_000);
            }
            BulletDirection::Trace => panic!("a random policy resolves to a fixed heading"),
        }
    }
}

#[test]
fn trace_policy_stays_unresolved() {
    assert!(matches!(
        BulletDirectionConfig::Trace.gen(),
        BulletDirection::Trace
    ));
}
