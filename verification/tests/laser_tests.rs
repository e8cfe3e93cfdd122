use thunder::entities::{
    BulletConfig, BulletDirection, GameState, GatlingGun, HittingEvent, Laser, LaserStar, Plane,
};
use thunder::geom::Vec2i;
use thunder::timer::{Timer, TimerMode};
use thunder::world::World;

fn enemy_at(id: u64, x: i64, y: i64, hp: u32) -> Plane {
    Plane {
        id,
        pos: Vec2i { x, y },
        scale: Vec2i { x: 30_000, y: 30_000 },
        hp,
        gun: GatlingGun {
            bullet_config: BulletConfig {
                relative_position: Vec2i { x: 0, y: -50_000 },
                diameter: 20_000,
                speed: 300,
                direction: BulletDirection::Fix(Vec2i { x: 0, y: -1000 }),
            },
            shoot_timer: Timer::new(2_000, TimerMode::Repeating),
        },
        laser: Laser { enabled: false, duration_timer: None },
    }
}

#[test]
fn capturing_a_pickup_arms_a_full_charge() {
    // Laser charge lifecycle, capture side: the pickup leaves, the
    // laser is enabled and its duration timer holds the configured
    // charge length.
    let mut w = World::new(3);
    let mut ev: Vec<HittingEvent> = Vec::new();
    // Spend some charge first, so the capture visibly refills it.
    w.shoot_laser(true, 3_000);
    assert_eq!(w.laser_remaining_ms(), Some(7_000));
    let p = w.player.unwrap().pos;
    w.star = Some(LaserStar { pos: Vec2i { x: p.x, y: p.y } });
    w.check_for_laser_star_capture(&mut ev);
    assert!(w.star.is_none());
    let player = w.player.unwrap();
    assert!(player.laser.enabled);
    assert_eq!(w.laser_remaining_ms(), Some(10_000));
    assert_eq!(ev, vec![HittingEvent::HitLaserPickup]);
}

#[test]
fn a_distant_pickup_is_not_captured() {
    let mut w = World::new(3);
    let mut ev: Vec<HittingEvent> = Vec::new();
    w.star = Some(LaserStar { pos: Vec2i { x: 300_000, y: 200_000 } });
    w.check_for_laser_star_capture(&mut ev);
    assert!(w.star.is_some());
    assert!(ev.is_empty());
}

#[test]
fn firing_redraws_the_beam_and_spends_the_charge() {
    let mut w = World::new(3);
    w.shoot_laser(true, 100);
    assert_eq!(w.rays.len(), 1);
    // From the player at the origin the beam spans up to the top
    // wall: height 290 units, centred above the muzzle.
    assert_eq!(w.rays[0].scale, Vec2i { x: 20_000, y: 290_000 });
    assert_eq!(w.rays[0].pos, Vec2i { x: 0, y: 153_000 });
    assert_eq!(w.laser_remaining_ms(), Some(9_900));
    // The redraw: old segments leave before new ones arrive.
    w.clear_laser();
    assert!(w.rays.is_empty());
}

#[test]
fn without_the_trigger_the_laser_holds_its_charge() {
    let mut w = World::new(3);
    w.shoot_laser(false, 100);
    assert!(w.rays.is_empty());
    assert_eq!(w.laser_remaining_ms(), Some(10_000));
}

#[test]
fn the_charge_runs_out_after_its_duration_of_held_trigger() {
    // Laser charge lifecycle, spending side: with a 10_000 ms charge
    // and 100 ms held-trigger ticks, the beam fires exactly 100 times
    // and then stops, trigger held or not.
    let mut w = World::new(3);
    let mut fires = 0u32;
    for _ in 0..150 {
        w.clear_laser();
        w.shoot_laser(true, 100);
        if !w.rays.is_empty() {
            fires += 1;
        }
    }
    assert_eq!(fires, 100);
    assert_eq!(w.laser_remaining_ms(), Some(0));
    w.clear_laser();
    w.shoot_laser(true, 100);
    assert!(w.rays.is_empty());
}

#[test]
fn the_beam_damages_on_its_own_clock_and_spares_the_player() {
    let mut w = World::new(3);
    let mut ev: Vec<HittingEvent> = Vec::new();
    w.enemies.push(enemy_at(50, 0, 100_000, 5));
    w.next_id = 51;
    w.shoot_laser(true, 100);
    assert_eq!(w.rays.len(), 1);
    // The damage timer runs at 100 ms; a 99 ms step does not fire it.
    w.check_for_laserray_hitting(99, &mut ev);
    assert_eq!(w.enemies[0].hp, 5);
    assert!(ev.is_empty());
    // The next millisecond fires the pass: the enemy under the beam
    // loses the beam's harm of 2, the top wall reports a wall hit,
    // and the player under the beam's root is spared.
    w.check_for_laserray_hitting(1, &mut ev);
    assert_eq!(w.enemies[0].hp, 3);
    assert_eq!(w.player_hp(), 20);
    assert!(ev.contains(&HittingEvent::HitTarget));
    assert!(ev.contains(&HittingEvent::HitWall));
}

#[test]
fn the_beam_destroys_and_scores() {
    let mut w = World::new(3);
    let mut ev: Vec<HittingEvent> = Vec::new();
    w.enemies.push(enemy_at(60, 0, 100_000, 2));
    w.next_id = 61;
    w.shoot_laser(true, 100);
    w.check_for_laserray_hitting(100, &mut ev);
    assert!(w.enemies.is_empty());
    assert_eq!(w.score, 1);
    assert_eq!(w.state, GameState::Game);
}

#[test]
fn pickups_spawn_on_their_clock_and_expire_on_their_lifetime() {
    let mut w = World::new(3);
    // Level 3 pickups spawn every 8 s and live for 4 s.
    w.add_laser_star(7_999);
    assert!(w.star.is_none());
    w.add_laser_star(1);
    let s = w.star.expect("a pickup spawns when the clock fires");
    assert!(-390_000 <= s.pos.x && s.pos.x < 390_000);
    assert!(-240_000 <= s.pos.y && s.pos.y < 240_000);
    w.remove_laser_star(3_999);
    assert!(w.star.is_some());
    w.remove_laser_star(1);
    assert!(w.star.is_none());
}

#[test]
fn laser_readout_tracks_the_player() {
    let mut w = World::new(3);
    assert_eq!(w.laser_remaining_ms(), Some(10_000));
    w.player = None;
    assert_eq!(w.laser_remaining_ms(), None);
}

#[test]
fn pickups_spawn_regardless_of_the_charge_state() {
    // The pickup clock runs whenever a player exists; a dark laser
    // does not stop it.
    let mut w = World::new(3);
    let p = w.player.unwrap();
    w.player = Some(Plane {
        laser: Laser { enabled: false, duration_timer: None },
        ..p
    });
    w.add_laser_star(8_000);
    assert!(w.star.is_some());
    // With no player at all, the clock stands still.
    let mut w2 = World::new(3);
    w2.player = None;
    w2.add_laser_star(8_000);
    assert!(w2.star.is_none());
}
