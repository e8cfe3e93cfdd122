//! The simulation state and the per-tick systems that drive it.
//!
//! A `World` owns every live entity and every global of one level
//! attempt: the player, the enemies, the projectiles and beam
//! segments, the walls, the pickup, the score, the wave index, the
//! pacing timers and the outcome state. The systems mutate it in a
//! fixed order once per tick.

use vstd::prelude::*;
use crate::config::{
    wave_size_spec, wave_table_spec, WaveConfig, BOTTOM_WALL, ENEMY_GEN_INTERVAL_MS, ENEMY_START_TIME_MS,
    LASER_ATTACK_INTERVAL_MS, LASER_STAR_VANISH_MS, LEFT_WALL, PLAYER_PLANE_SPEED, RIGHT_WALL,
    TOP_WALL,
};
use crate::combat::{bullet_hitting_rel, combat_of};
use crate::laser::{
    add_laser_star_rel, clear_laser_rel, laser_star_capture_rel, laserray_hitting_rel,
    remove_laser_star_rel, shoot_laser_rel,
};
use crate::entities::{
    Bullet, GameState, GatlingGun, HittingEvent, LaserRay, LaserStar, Plane, Wall, WallLocation,
};
use crate::generator::{
    enemy_matches_config, gen_bullet, gen_bullet_spec, gen_user_plane, gen_wave, user_plane_spec,
};
use crate::laws::{
    hp_monotone, lemma_beam_resolve_monotone, lemma_hp_monotone_refl, lemma_hp_monotone_trans,
    lemma_hp_monotone_weaken, lemma_resolve_enemies_monotone, lemma_resolve_player_and_score,
    player_hp_monotone, traces_to,
};
use crate::geom::Vec2i;
use crate::timer::{Timer, TimerMode};
use crate::{clamp64, clamp_pos_spec, clamp_spec, DT_LIMIT};

verus! {

// How close the player's plane can get to each wall: the wall
// coordinate, less half the wall's thickness, half the plane's size
// and the padding.
pub const PLAYER_WALL_MARGIN: i64 = 30_000;

pub const PLAYER_MIN_X: i64 = LEFT_WALL + PLAYER_WALL_MARGIN;

pub const PLAYER_MAX_X: i64 = RIGHT_WALL - PLAYER_WALL_MARGIN;

pub const PLAYER_MIN_Y: i64 = BOTTOM_WALL + PLAYER_WALL_MARGIN;

pub const PLAYER_MAX_Y: i64 = TOP_WALL - PLAYER_WALL_MARGIN;

/// The player's movement never leaves this box.
pub open spec fn player_in_bounds(p: Vec2i) -> bool {
    &&& PLAYER_MIN_X <= p.x <= PLAYER_MAX_X
    &&& PLAYER_MIN_Y <= p.y <= PLAYER_MAX_Y
}

/// How often a laser pickup appears, by level, in milliseconds
/// (effectively never on the first level).
pub open spec fn star_interval_spec(level: int) -> u64 {
    if level == 1 {
        100_000_000
    } else if level == 2 {
        5_000
    } else {
        8_000
    }
}

/// The whole state of one level attempt.
pub struct World {
    pub level: u32,
    pub player: Option<Plane>,
    pub enemies: Vec<Plane>,
    pub bullets: Vec<Bullet>,
    pub rays: Vec<LaserRay>,
    pub walls: Vec<Wall>,
    pub star: Option<LaserStar>,
    pub score: u32,
    pub wave: u32,
    pub state: GameState,
    /// Counts down to the next wave spawn; paused while the spawned
    /// wave is still alive.
    pub enemy_generate_timer: Timer,
    /// Paces the beam's damage, independently of its redraw.
    pub laser_attack_timer: Timer,
    /// Paces pickup spawns.
    pub star_generate_timer: Timer,
    /// Removes an uncaptured pickup after its lifetime.
    pub star_vanish_timer: Timer,
    /// The next identity to hand out; identities are never reused.
    pub next_id: u64,
}

impl World {
    pub open spec fn wf(self) -> bool {
        &&& 1 <= self.level <= 5
        &&& self.wave <= WaveConfig::wave_len_spec(self.level as int)
        &&& (self.state is Game ==> self.wave < WaveConfig::wave_len_spec(self.level as int))
        &&& (self.player matches Some(p) ==> p.valid() && player_in_bounds(p.pos) && p.id
            < self.next_id)
        &&& forall|i: int|
            0 <= i < self.enemies@.len() ==> (#[trigger] self.enemies@[i]).valid()
                && self.enemies@[i].id < self.next_id
        &&& forall|i: int, j: int|
            0 <= i < j < self.enemies@.len() ==> self.enemies@[i].id != self.enemies@[j].id
        &&& forall|i: int| 0 <= i < self.bullets@.len() ==> (#[trigger] self.bullets@[i]).valid()
        &&& forall|i: int| 0 <= i < self.rays@.len() ==> (#[trigger] self.rays@[i]).valid()
        &&& forall|i: int| 0 <= i < self.walls@.len() ==> (#[trigger] self.walls@[i]).valid()
        &&& (self.star matches Some(s) ==> s.valid())
        &&& self.enemy_generate_timer.wf()
        &&& self.laser_attack_timer.wf()
        &&& self.star_generate_timer.wf()
        &&& self.star_vanish_timer.wf()
    }

    /// Set up a fresh attempt at the given level: the player at the
    /// origin, the four walls, no enemies yet, the first wave's
    /// countdown running.
    pub fn new(level: u32) -> (w: World)
        requires
            1 <= level <= 5,
        ensures
            w.wf(),
            w.level == level,
            w.player == Some(user_plane_spec(level as int)),
            w.enemies@.len() == 0,
            w.bullets@.len() == 0,
            w.rays@.len() == 0,
            w.walls@ == seq![
                Wall { pos: WallLocation::Left.position_spec(), scale: WallLocation::Left.size_spec() },
                Wall { pos: WallLocation::Right.position_spec(), scale: WallLocation::Right.size_spec() },
                Wall { pos: WallLocation::Bottom.position_spec(), scale: WallLocation::Bottom.size_spec() },
                Wall { pos: WallLocation::Top.position_spec(), scale: WallLocation::Top.size_spec() },
            ],
            w.star is None,
            w.score == 0,
            w.wave == 0,
            w.state is Game,
            w.enemy_generate_timer == Timer::new_spec(ENEMY_START_TIME_MS, TimerMode::Once),
            w.laser_attack_timer == Timer::new_spec(
                LASER_ATTACK_INTERVAL_MS,
                TimerMode::Repeating,
            ),
            w.star_generate_timer == Timer::new_spec(
                star_interval_spec(level as int),
                TimerMode::Repeating,
            ),
            w.star_vanish_timer == Timer::new_spec(LASER_STAR_VANISH_MS, TimerMode::Once),
            w.next_id == 1,
    {
        let mut walls: Vec<Wall> = Vec::new();
        walls.push(Wall::new(WallLocation::Left));
        walls.push(Wall::new(WallLocation::Right));
        walls.push(Wall::new(WallLocation::Bottom));
        walls.push(Wall::new(WallLocation::Top));
        proof {
            assert(walls@ =~= seq![
                Wall {
                    pos: WallLocation::Left.position_spec(),
                    scale: WallLocation::Left.size_spec(),
                },
                Wall {
                    pos: WallLocation::Right.position_spec(),
                    scale: WallLocation::Right.size_spec(),
                },
                Wall {
                    pos: WallLocation::Bottom.position_spec(),
                    scale: WallLocation::Bottom.size_spec(),
                },
                Wall {
                    pos: WallLocation::Top.position_spec(),
                    scale: WallLocation::Top.size_spec(),
                },
            ]);
        }
        let star_interval: u64 = match level {
            1 => 100_000_000,
            2 => 5_000,
            _ => 8_000,
        };
        World {
            level,
            player: Some(gen_user_plane(level)),
            enemies: Vec::new(),
            bullets: Vec::new(),
            rays: Vec::new(),
            walls,
            star: None,
            score: 0,
            wave: 0,
            state: GameState::Game,
            enemy_generate_timer: Timer::new(ENEMY_START_TIME_MS, TimerMode::Once),
            laser_attack_timer: Timer::new(LASER_ATTACK_INTERVAL_MS, TimerMode::Repeating),
            star_generate_timer: Timer::new(star_interval, TimerMode::Repeating),
            star_vanish_timer: Timer::new(LASER_STAR_VANISH_MS, TimerMode::Once),
            next_id: 1,
        }
    }

    /// Tick the wave countdown; when it fires, pause it and spawn
    /// every enemy of the current wave, each under a fresh identity.
    pub fn generate_enemy(&mut self, delta_ms: u32)
        requires
            old(self).wf(),
            old(self).state is Game,
            old(self).next_id + 16 <= u64::MAX,
        ensures
            final(self).wf(),
            generate_enemy_rel(*old(self), *final(self), delta_ms),
    {
        let fired = self.enemy_generate_timer.tick(delta_ms);
        if fired {
            self.enemy_generate_timer.reset();
            self.enemy_generate_timer.pause();
            let spawned = gen_wave(self.level, self.wave);
            proof {
                assert(wave_size_spec(self.level as int, self.wave as int) <= 16);
            }
            let ghost mid = *self;
            let ghost start_len = self.enemies@.len() as int;
            let ghost start_id = self.next_id;
            let mut i: usize = 0;
            while i < spawned.len()
                invariant
                    i <= spawned@.len(),
                    self.next_id == start_id + i,
                    self.enemies@.len() == start_len + i,
                    *self == (World {
                        enemies: self.enemies,
                        next_id: self.next_id,
                        ..mid
                    }),
                    forall|j: int| 0 <= j < start_len ==> self.enemies@[j] == old(self).enemies@[j],
                    forall|j: int|
                        start_len <= j < self.enemies@.len() ==> (#[trigger] self.enemies@[j]).valid()
                            && start_id <= self.enemies@[j].id < self.next_id,
                    forall|j: int|
                        start_len <= j < self.enemies@.len() ==> enemy_matches_config(
                            #[trigger] self.enemies@[j],
                            wave_table_spec(
                                old(self).level as int,
                                old(self).wave as int,
                            )[j - start_len],
                        ),
                    forall|j: int, k: int|
                        0 <= j < k < self.enemies@.len() ==> self.enemies@[j].id
                            != self.enemies@[k].id,
                decreases spawned@.len() - i,
            {
                let p = spawned[i];
                self.enemies.push(Plane { id: self.next_id, ..p });
                self.next_id = self.next_id + 1;
                i = i + 1;
            }
        }
    }

    /// Move every projectile by its velocity times the step, the
    /// coordinates saturating at the world's far boundary.
    pub fn apply_velocity(&mut self, delta_ms: u32)
        requires
            old(self).wf(),
            delta_ms <= DT_LIMIT,
        ensures
            final(self).wf(),
            apply_velocity_rel(*old(self), *final(self), delta_ms),
    {
        let mut moved: Vec<Bullet> = Vec::new();
        let mut i: usize = 0;
        while i < self.bullets.len()
            invariant
                old(self).wf(),
                delta_ms <= DT_LIMIT,
                *self == (World { bullets: self.bullets, ..*old(self) }),
                self.bullets == old(self).bullets,
                i <= old(self).bullets@.len(),
                moved@.len() == i,
                forall|j: int|
                    0 <= j < i as int ==> moved@[j] == (Bullet {
                        pos: moved_spec(
                            old(self).bullets@[j].pos,
                            old(self).bullets@[j].vel,
                            delta_ms,
                        ),
                        ..old(self).bullets@[j]
                    }),
                forall|j: int| 0 <= j < moved@.len() ==> (#[trigger] moved@[j]).valid(),
            decreases old(self).bullets@.len() - i,
        {
            let b = self.bullets[i];
            proof {
                assert(-0x100_0000_0000i64 <= b.vel.x * delta_ms <= 0x100_0000_0000i64
                    && -0x100_0000_0000i64 <= b.vel.y * delta_ms <= 0x100_0000_0000i64)
                    by (nonlinear_arith)
                    requires
                        -crate::VEL_LIMIT <= b.vel.x <= crate::VEL_LIMIT,
                        -crate::VEL_LIMIT <= b.vel.y <= crate::VEL_LIMIT,
                        0 <= delta_ms <= DT_LIMIT,
                ;
            }
            let nx: i64 = crate::clamp_pos(b.pos.x + b.vel.x * (delta_ms as i64));
            let ny: i64 = crate::clamp_pos(b.pos.y + b.vel.y * (delta_ms as i64));
            moved.push(Bullet { pos: Vec2i { x: nx, y: ny }, ..b });
            i = i + 1;
        }
        self.bullets = moved;
    }

    /// Apply the player's movement intent for this tick: one step of
    /// the plane's speed along each pressed axis, clamped to the box
    /// the walls allow. With no player (between defeat and teardown)
    /// this tick does nothing.
    pub fn move_player_plane(&mut self, dir_x: i64, dir_y: i64, delta_ms: u32)
        requires
            old(self).wf(),
            -1 <= dir_x <= 1,
            -1 <= dir_y <= 1,
            delta_ms <= DT_LIMIT,
        ensures
            final(self).wf(),
            move_player_plane_rel(*old(self), *final(self), dir_x, dir_y, delta_ms),
    {
        let p = match self.player {
            None => { return ; },
            Some(p) => p,
        };
        let step: i64 = PLAYER_PLANE_SPEED * (delta_ms as i64);
        let dx: i64 = if dir_x > 0 {
            step
        } else if dir_x < 0 {
            -step
        } else {
            0
        };
        let dy: i64 = if dir_y > 0 {
            step
        } else if dir_y < 0 {
            -step
        } else {
            0
        };
        let nx: i64 = clamp64(p.pos.x + dx, PLAYER_MIN_X, PLAYER_MAX_X);
        let ny: i64 = clamp64(p.pos.y + dy, PLAYER_MIN_Y, PLAYER_MAX_Y);
        self.player = Some(Plane { pos: Vec2i { x: nx, y: ny }, ..p });
    }

    /// Tick every gun's cooldown; each gun that fires spawns one
    /// bullet at its wielder's muzzle, enemies first, then the
    /// player. A tracing gun aims at the player's position as it is
    /// now. With no player, guns hold fire and cooldowns stand still.
    pub fn shoot_gun(&mut self, delta_ms: u32)
        requires
            old(self).wf(),
        ensures
            final(self).wf(),
            shoot_gun_rel(*old(self), *final(self), delta_ms),
    {
        let p = match self.player {
            None => { return ; },
            Some(p) => p,
        };
        let ppos = p.pos;
        let mut new_enemies: Vec<Plane> = Vec::new();
        let mut i: usize = 0;
        while i < self.enemies.len()
            invariant
                old(self).wf(),
                old(self).player == Some(p),
                ppos == p.pos,
                *self == (World { bullets: self.bullets, ..*old(self) }),
                i <= old(self).enemies@.len(),
                new_enemies@.len() == i,
                forall|j: int|
                    0 <= j < i as int ==> new_enemies@[j] == gun_ticked(
                        old(self).enemies@[j],
                        delta_ms,
                    ),
                forall|j: int| 0 <= j < new_enemies@.len() ==> (#[trigger] new_enemies@[j]).valid(),
                forall|j: int|
                    0 <= j < new_enemies@.len() ==> (#[trigger] new_enemies@[j]).id
                        == old(self).enemies@[j].id,
                self.bullets@ == old(self).bullets@ + spawned_prefix(
                    old(self).enemies@,
                    delta_ms,
                    ppos,
                    i as int,
                ),
                forall|j: int| 0 <= j < self.bullets@.len() ==> (#[trigger] self.bullets@[j]).valid(),
            decreases old(self).enemies@.len() - i,
        {
            let mut e: Plane = self.enemies[i];
            let fired = e.gun.shoot_timer.tick(delta_ms);
            if fired {
                let b = gen_bullet(&e.gun, e.pos, ppos);
                self.bullets.push(b);
            }
            new_enemies.push(e);
            i = i + 1;
        }
        proof {
            assert(spawned_prefix(old(self).enemies@, delta_ms, ppos, old(self).enemies@.len() as int)
                == spawned_by_enemies(old(self).enemies@, delta_ms, ppos));
        }
        self.enemies = new_enemies;
        let mut player_plane: Plane = p;
        let fired = player_plane.gun.shoot_timer.tick(delta_ms);
        if fired {
            let b = gen_bullet(&player_plane.gun, player_plane.pos, ppos);
            self.bullets.push(b);
            proof {
                assert(self.bullets@ =~= old(self).bullets@ + spawned_by_enemies(
                    old(self).enemies@,
                    delta_ms,
                    ppos,
                ) + seq![b]);
            }
        } else {
            proof {
                assert(self.bullets@ =~= old(self).bullets@ + spawned_by_enemies(
                    old(self).enemies@,
                    delta_ms,
                    ppos,
                ) + Seq::<Bullet>::empty());
            }
        }
        self.player = Some(player_plane);
    }

    /// Advance the wave controller once the current wave is spent:
    /// all its enemies destroyed and the spawn countdown consumed.
    /// The wave index increments exactly once, the countdown to the
    /// next spawn restarts, and clearing the final wave ends the
    /// level: completion on the last level, a win otherwise.
    pub fn check_for_next_wave(&mut self)
        requires
            old(self).wf(),
            old(self).wave < WaveConfig::wave_len_spec(old(self).level as int),
        ensures
            final(self).wf(),
            *final(self) == next_wave_spec(*old(self)),
    {
        if self.enemies.len() == 0 && self.enemy_generate_timer.is_paused() {
            self.wave = self.wave + 1;
            self.enemy_generate_timer = Timer::new(ENEMY_GEN_INTERVAL_MS, TimerMode::Once);
            if self.wave >= WaveConfig::get_wave_len(self.level) {
                if self.level == 5 {
                    self.state = GameState::Completion;
                } else {
                    self.state = GameState::Win;
                }
            }
        }
    }


    /// The spawn-and-weapons phase of a tick: the wave controller
    /// spawns, the guns fire, the beam is cleared for this tick's
    /// redraw.
    fn spawn_and_fire(&mut self, delta_ms: u32)
        requires
            old(self).wf(),
            old(self).state is Game,
            old(self).next_id + 16 <= u64::MAX,
        ensures
            final(self).wf(),
            final(self).level == old(self).level,
            final(self).walls == old(self).walls,
            final(self).score == old(self).score,
            final(self).wave == old(self).wave,
            final(self).state == old(self).state,
            final(self).star == old(self).star,
            final(self).next_id >= old(self).next_id,
            final(self).rays@.len() == 0,
            final(self).laser_attack_timer == old(self).laser_attack_timer,
            hp_monotone(old(self).enemies@, final(self).enemies@, old(self).next_id),
            old(self).player is None ==> final(self).player is None,
            old(self).player matches Some(p1) ==> (final(self).player matches Some(p2) && p2.pos
                == p1.pos && p2.hp == p1.hp && p2.id == p1.id),
            spawn_and_fire_rel(*old(self), *final(self), delta_ms),
    {
        let ghost w0 = *old(self);
        let ghost f = w0.next_id;
        self.generate_enemy(delta_ms);
        proof {
            assert(hp_monotone(w0.enemies@, self.enemies@, f)) by {
                assert forall|j: int|
                    0 <= j < self.enemies@.len() implies ((#[trigger] self.enemies@[j]).id >= f
                    || traces_to(w0.enemies@, self.enemies@[j])) by {
                    if j < w0.enemies@.len() {
                        assert(self.enemies@[j] == w0.enemies@[j]);
                        assert(0 <= j < w0.enemies@.len() && w0.enemies@[j].id
                            == self.enemies@[j].id && self.enemies@[j].hp <= w0.enemies@[j].hp);
                    }
                }
            };
        }
        let ghost w1 = *self;
        self.shoot_gun(delta_ms);
        proof {
            assert(hp_monotone(w1.enemies@, self.enemies@, f)) by {
                assert forall|j: int|
                    0 <= j < self.enemies@.len() implies ((#[trigger] self.enemies@[j]).id >= f
                    || traces_to(w1.enemies@, self.enemies@[j])) by {
                    assert(0 <= j < w1.enemies@.len() && w1.enemies@[j].id == self.enemies@[j].id
                        && self.enemies@[j].hp <= w1.enemies@[j].hp);
                }
            };
            lemma_hp_monotone_trans(w0.enemies@, w1.enemies@, self.enemies@, f);
        }
        let ghost w2 = *self;
        self.clear_laser();
        proof {
            assert(generate_enemy_rel(w0, w1, delta_ms));
            assert(shoot_gun_rel(w1, w2, delta_ms));
            assert(clear_laser_rel(w2, *self));
            assert(spawn_and_fire_rel(w0, *self, delta_ms));
        }
    }

    /// The motion-and-pickups phase of a tick: the projectiles move,
    /// the player moves and redraws the beam, the pickups spawn,
    /// expire and are captured.
    fn motion_and_pickups(
        &mut self,
        trigger_held: bool,
        dir_x: i64,
        dir_y: i64,
        delta_ms: u32,
        events: &mut Vec<HittingEvent>,
    )
        requires
            old(self).wf(),
            -1 <= dir_x <= 1,
            -1 <= dir_y <= 1,
            delta_ms <= DT_LIMIT,
        ensures
            final(self).wf(),
            final(self).level == old(self).level,
            final(self).walls == old(self).walls,
            final(self).enemies == old(self).enemies,
            final(self).score == old(self).score,
            final(self).wave == old(self).wave,
            final(self).state == old(self).state,
            final(self).next_id == old(self).next_id,
            final(self).laser_attack_timer == old(self).laser_attack_timer,
            old(self).player is None ==> final(self).player is None,
            old(self).player matches Some(p1) ==> (final(self).player matches Some(p2) && p2.pos
                == moved_player_spec(p1.pos, dir_x, dir_y, delta_ms) && p2.hp == p1.hp && p2.id
                == p1.id),
            motion_and_pickups_rel(
                *old(self),
                *final(self),
                trigger_held,
                dir_x,
                dir_y,
                delta_ms,
                old(events)@,
                final(events)@,
            ),
    {
        let ghost m0 = *old(self);
        self.apply_velocity(delta_ms);
        let ghost m1 = *self;
        self.move_player_plane(dir_x, dir_y, delta_ms);
        let ghost m2 = *self;
        self.shoot_laser(trigger_held, delta_ms);
        let ghost m3 = *self;
        self.add_laser_star(delta_ms);
        let ghost m4 = *self;
        self.remove_laser_star(delta_ms);
        let ghost m5 = *self;
        self.check_for_laser_star_capture(events);
        proof {
            assert(apply_velocity_rel(m0, m1, delta_ms));
            assert(move_player_plane_rel(m1, m2, dir_x, dir_y, delta_ms));
            assert(shoot_laser_rel(m2, m3, trigger_held, delta_ms));
            assert(add_laser_star_rel(m3, m4, delta_ms));
            assert(remove_laser_star_rel(m4, m5, delta_ms));
            assert(laser_star_capture_rel(m5, *self, old(events)@, events@));
            assert(motion_and_pickups_rel(
                m0,
                *self,
                trigger_held,
                dir_x,
                dir_y,
                delta_ms,
                old(events)@,
                events@,
            ));
        }
    }

    /// The resolution phase of a tick: the projectiles and the beam
    /// apply their damage.
    fn resolve_damage(&mut self, delta_ms: u32, events: &mut Vec<HittingEvent>)
        requires
            old(self).wf(),
        ensures
            final(self).wf(),
            final(self).level == old(self).level,
            final(self).walls == old(self).walls,
            final(self).wave == old(self).wave,
            final(self).next_id == old(self).next_id,
            final(self).score >= old(self).score,
            final(self).laser_attack_timer == old(self).laser_attack_timer.tick_spec(delta_ms),
            hp_monotone(old(self).enemies@, final(self).enemies@, old(self).next_id),
            player_hp_monotone(old(self).player, final(self).player),
            final(self).player matches Some(p2) ==> (old(self).player matches Some(p1) && p2.pos
                == p1.pos),
            resolve_damage_rel(*old(self), *final(self), delta_ms, old(events)@, final(events)@),
    {
        let ghost w3 = *old(self);
        let ghost f = w3.next_id;
        let ghost ev0 = events@;
        self.check_for_bullet_hitting(events);
        proof {
            lemma_resolve_enemies_monotone(
                combat_of(w3),
                w3.bullets@,
                w3.bullets@.len() as int,
                f,
            );
            lemma_resolve_player_and_score(combat_of(w3), w3.bullets@, w3.bullets@.len() as int);
        }
        let ghost w4 = *self;
        let ghost ev_mid = events@;
        self.check_for_laserray_hitting(delta_ms, events);
        proof {
            if w4.laser_attack_timer.tick_spec(delta_ms).just_finished {
                lemma_beam_resolve_monotone(
                    w4.enemies@,
                    w4.score,
                    w4.rays@,
                    w4.rays@.len() as int,
                    f,
                );
            } else {
                lemma_hp_monotone_refl(w4.enemies@, f);
            }
            lemma_hp_monotone_trans(w3.enemies@, w4.enemies@, self.enemies@, f);
            assert(bullet_hitting_rel(w3, w4, ev0, ev_mid));
            assert(laserray_hitting_rel(w4, *self, delta_ms, ev_mid, events@));
            assert(resolve_damage_rel(w3, *self, delta_ms, ev0, events@));
        }
    }

    /// Run one fixed simulation step, in the documented system order:
    /// the wave controller spawns, the guns fire, the projectiles
    /// move, the beam is redrawn at the player's moved position, the
    /// pickups spawn, expire and are captured, the projectiles and the
    /// beam resolve their damage, and the wave controller advances.
    /// Events for the host (sounds) accumulate in `events`.
    ///
    /// The whole step is pinned by [`tick_rel`]: the composition of
    /// the three phase relations followed by the controller's advance,
    /// leaving open only where spawns and pickups land and which
    /// headings their arcs resolve to. Across the step, health is
    /// monotone: every surviving plane was spawned this step or
    /// descends from one alive before it with no more hit points; the
    /// score never drops; the wave index never drops and grows by at
    /// most one.
    pub fn tick(
        &mut self,
        trigger_held: bool,
        dir_x: i64,
        dir_y: i64,
        delta_ms: u32,
        events: &mut Vec<HittingEvent>,
    )
        requires
            old(self).wf(),
            old(self).state is Game,
            -1 <= dir_x <= 1,
            -1 <= dir_y <= 1,
            delta_ms <= DT_LIMIT,
            old(self).next_id + 16 <= u64::MAX,
        ensures
            final(self).wf(),
            final(self).level == old(self).level,
            final(self).walls == old(self).walls,
            hp_monotone(old(self).enemies@, final(self).enemies@, old(self).next_id),
            player_hp_monotone(old(self).player, final(self).player),
            final(self).score >= old(self).score,
            old(self).wave <= final(self).wave <= old(self).wave + 1,
            final(self).laser_attack_timer == old(self).laser_attack_timer.tick_spec(delta_ms),
            final(self).player matches Some(p2) ==> (old(self).player matches Some(p1) && p2.pos
                == moved_player_spec(p1.pos, dir_x, dir_y, delta_ms)),
            tick_rel(
                *old(self),
                *final(self),
                trigger_held,
                dir_x,
                dir_y,
                delta_ms,
                old(events)@,
                final(events)@,
            ),
    {
        let ghost w0 = *old(self);
        let ghost f = w0.next_id;
        self.spawn_and_fire(delta_ms);
        let ghost w1 = *self;
        self.motion_and_pickups(trigger_held, dir_x, dir_y, delta_ms, events);
        let ghost w2 = *self;
        let ghost e_mid = events@;
        proof {
            assert(w2.enemies == w1.enemies);
            lemma_hp_monotone_weaken(w1.enemies@, w2.enemies@, w1.next_id, f);
        }
        self.resolve_damage(delta_ms, events);
        let ghost w3 = *self;
        proof {
            lemma_hp_monotone_weaken(w2.enemies@, self.enemies@, w2.next_id, f);
            lemma_hp_monotone_trans(w0.enemies@, w2.enemies@, self.enemies@, f);
        }
        self.check_for_next_wave();
        proof {
            assert(spawn_and_fire_rel(w0, w1, delta_ms));
            assert(motion_and_pickups_rel(
                w1,
                w2,
                trigger_held,
                dir_x,
                dir_y,
                delta_ms,
                old(events)@,
                e_mid,
            ));
            assert(resolve_damage_rel(w2, w3, delta_ms, e_mid, events@));
            assert(tick_rel(
                w0,
                *self,
                trigger_held,
                dir_x,
                dir_y,
                delta_ms,
                old(events)@,
                events@,
            ));
        }
    }

    /// The current score, as the scoreboard shows it.
    pub fn score(&self) -> (s: u32)
        ensures
            s == self.score,
    {
        self.score
    }

    /// The player's hit points, as the health readout shows them:
    /// zero while no player exists.
    pub fn player_hp(&self) -> (hp: u32)
        ensures
            hp == (match self.player {
                Some(p) => p.hp,
                None => 0u32,
            }),
    {
        match &self.player {
            Some(p) => p.hp,
            None => 0,
        }
    }
}

/// A bullet's position after one step, each coordinate saturating at
/// the world's far boundary.
pub open spec fn moved_spec(pos: Vec2i, vel: Vec2i, delta_ms: u32) -> Vec2i {
    Vec2i {
        x: clamp_pos_spec(pos.x + vel.x * delta_ms) as i64,
        y: clamp_pos_spec(pos.y + vel.y * delta_ms) as i64,
    }
}

/// One axis of the player's movement: a full speed step in the
/// pressed direction.
pub open spec fn axis_step(dir: i64, delta_ms: u32) -> int {
    if dir > 0 {
        PLAYER_PLANE_SPEED * delta_ms
    } else if dir < 0 {
        -(PLAYER_PLANE_SPEED * delta_ms)
    } else {
        0
    }
}

/// The player's position after one movement tick, clamped to the box
/// the walls allow.
pub open spec fn moved_player_spec(pos: Vec2i, dir_x: i64, dir_y: i64, delta_ms: u32) -> Vec2i {
    Vec2i {
        x: clamp_spec(
            pos.x + axis_step(dir_x, delta_ms),
            PLAYER_MIN_X as int,
            PLAYER_MAX_X as int,
        ) as i64,
        y: clamp_spec(
            pos.y + axis_step(dir_y, delta_ms),
            PLAYER_MIN_Y as int,
            PLAYER_MAX_Y as int,
        ) as i64,
    }
}

/// A plane after its gun's cooldown ticked.
pub open spec fn gun_ticked(p: Plane, delta_ms: u32) -> Plane {
    Plane {
        gun: GatlingGun { shoot_timer: p.gun.shoot_timer.tick_spec(delta_ms), ..p.gun },
        ..p
    }
}

/// Whether a plane's gun fires during this tick.
pub open spec fn gun_fires(p: Plane, delta_ms: u32) -> bool {
    p.gun.shoot_timer.tick_spec(delta_ms).just_finished
}

/// The bullets the first `n` enemies spawn this tick, in storage
/// order; a tracing gun aims at the player position `ppos`.
pub open spec fn spawned_prefix(enemies: Seq<Plane>, delta_ms: u32, ppos: Vec2i, n: int) -> Seq<
    Bullet,
>
    decreases n,
{
    if n <= 0 {
        Seq::empty()
    } else {
        spawned_prefix(enemies, delta_ms, ppos, n - 1) + (if gun_fires(enemies[n - 1], delta_ms) {
            seq![
                gen_bullet_spec(
                    gun_ticked(enemies[n - 1], delta_ms).gun.bullet_config,
                    enemies[n - 1].pos,
                    ppos,
                ),
            ]
        } else {
            Seq::<Bullet>::empty()
        })
    }
}

/// The bullets all enemies spawn this tick.
pub open spec fn spawned_by_enemies(enemies: Seq<Plane>, delta_ms: u32, ppos: Vec2i) -> Seq<
    Bullet,
> {
    spawned_prefix(enemies, delta_ms, ppos, enemies.len() as int)
}


/// What the wave controller does in one resolution: while the current
/// wave is spent — no enemy remains and the spawn countdown was
/// consumed — the wave index increments, the countdown to the next
/// spawn restarts, and past the last wave the attempt ends: completion
/// on the final level, a win otherwise. In any other state nothing
/// changes.
pub open spec fn next_wave_spec(w: World) -> World {
    if w.enemies@.len() == 0 && w.enemy_generate_timer.paused {
        let wave2 = (w.wave + 1) as u32;
        World {
            wave: wave2,
            enemy_generate_timer: Timer::new_spec(ENEMY_GEN_INTERVAL_MS, TimerMode::Once),
            state: if wave2 >= WaveConfig::wave_len_spec(w.level as int) {
                if w.level == 5 {
                    GameState::Completion
                } else {
                    GameState::Win
                }
            } else {
                w.state
            },
            ..w
        }
    } else {
        w
    }
}



/// The spawn-and-weapons phase of a tick as one relation: the wave
/// controller spawns, the guns fire, the beam is cleared.
pub open spec fn spawn_and_fire_rel(pre: World, post: World, delta_ms: u32) -> bool {
    exists|a: World, b: World|
        {
            &&& #[trigger] generate_enemy_rel(pre, a, delta_ms)
            &&& #[trigger] shoot_gun_rel(a, b, delta_ms)
            &&& clear_laser_rel(b, post)
        }
}

/// The motion-and-pickups phase of a tick as one relation: the
/// projectiles move, the player moves and redraws the beam, the
/// pickups spawn, expire and are captured.
pub open spec fn motion_and_pickups_rel(
    pre: World,
    post: World,
    trigger_held: bool,
    dir_x: i64,
    dir_y: i64,
    delta_ms: u32,
    ev_pre: Seq<HittingEvent>,
    ev_post: Seq<HittingEvent>,
) -> bool {
    exists|a: World, b: World, c: World, d: World, e: World|
        {
            &&& #[trigger] apply_velocity_rel(pre, a, delta_ms)
            &&& #[trigger] move_player_plane_rel(a, b, dir_x, dir_y, delta_ms)
            &&& #[trigger] shoot_laser_rel(b, c, trigger_held, delta_ms)
            &&& #[trigger] add_laser_star_rel(c, d, delta_ms)
            &&& #[trigger] remove_laser_star_rel(d, e, delta_ms)
            &&& laser_star_capture_rel(e, post, ev_pre, ev_post)
        }
}

/// The resolution phase of a tick as one relation: the projectiles
/// burst, then the beam applies its damage.
pub open spec fn resolve_damage_rel(
    pre: World,
    post: World,
    delta_ms: u32,
    ev_pre: Seq<HittingEvent>,
    ev_post: Seq<HittingEvent>,
) -> bool {
    exists|a: World, ev_mid: Seq<HittingEvent>|
        {
            &&& #[trigger] bullet_hitting_rel(pre, a, ev_pre, ev_mid)
            &&& laserray_hitting_rel(a, post, delta_ms, ev_mid, ev_post)
        }
}

/// One whole tick as one relation: the three phases in the documented
/// order, then the wave controller's advance. The only freedom the
/// relation leaves is where the spawned enemies and the pickup land
/// and which headings their arcs resolve to.
pub open spec fn tick_rel(
    pre: World,
    post: World,
    trigger_held: bool,
    dir_x: i64,
    dir_y: i64,
    delta_ms: u32,
    ev_pre: Seq<HittingEvent>,
    ev_post: Seq<HittingEvent>,
) -> bool {
    exists|a: World, b: World, c: World, ev_mid: Seq<HittingEvent>|
        {
            &&& #[trigger] spawn_and_fire_rel(pre, a, delta_ms)
            &&& #[trigger] motion_and_pickups_rel(
                a,
                b,
                trigger_held,
                dir_x,
                dir_y,
                delta_ms,
                ev_pre,
                ev_mid,
            )
            &&& #[trigger] resolve_damage_rel(b, c, delta_ms, ev_mid, ev_post)
            &&& post == next_wave_spec(c)
        }
}

/// What ticking the wave countdown does: nothing else changes; when
/// the countdown fires it is reset and paused, and exactly the current
/// wave's table entries are instantiated, appended in table order
/// under fresh identities.
pub open spec fn generate_enemy_rel(pre: World, post: World, delta_ms: u32) -> bool {
    &&& post == (World {
        enemies: post.enemies,
        next_id: post.next_id,
        enemy_generate_timer: post.enemy_generate_timer,
        ..pre
    })
    &&& ({
        let t2 = pre.enemy_generate_timer.tick_spec(delta_ms);
        if t2.just_finished {
            &&& post.enemy_generate_timer == (Timer {
                elapsed_ms: 0,
                finished: false,
                just_finished: false,
                paused: true,
                ..t2
            })
            &&& post.enemies@.len() == pre.enemies@.len() + wave_size_spec(
                pre.level as int,
                pre.wave as int,
            )
            &&& post.next_id == pre.next_id + wave_size_spec(pre.level as int, pre.wave as int)
        } else {
            &&& post.enemy_generate_timer == t2
            &&& post.enemies == pre.enemies
            &&& post.next_id == pre.next_id
        }
    })
    &&& forall|i: int| 0 <= i < pre.enemies@.len() ==> post.enemies@[i] == pre.enemies@[i]
    &&& forall|i: int|
        pre.enemies@.len() <= i < post.enemies@.len() ==> (#[trigger] post.enemies@[i]).id
            >= pre.next_id
    &&& forall|i: int|
        pre.enemies@.len() <= i < post.enemies@.len() ==> enemy_matches_config(
            #[trigger] post.enemies@[i],
            wave_table_spec(pre.level as int, pre.wave as int)[i - pre.enemies@.len()],
        )
}

/// What one weapons pass does: every gun's cooldown ticks, and each
/// gun that fires appends one bullet — the enemies' in storage order,
/// then the player's. With no player, nothing happens.
pub open spec fn shoot_gun_rel(pre: World, post: World, delta_ms: u32) -> bool {
    &&& post == (World {
        player: post.player,
        enemies: post.enemies,
        bullets: post.bullets,
        ..pre
    })
    &&& match pre.player {
        None => post == pre,
        Some(p) => {
            &&& post.player == Some(gun_ticked(p, delta_ms))
            &&& post.enemies@.len() == pre.enemies@.len()
            &&& forall|i: int|
                0 <= i < pre.enemies@.len() ==> post.enemies@[i] == gun_ticked(
                    pre.enemies@[i],
                    delta_ms,
                )
            &&& post.bullets@ == pre.bullets@ + spawned_by_enemies(pre.enemies@, delta_ms, p.pos)
                + (if gun_fires(p, delta_ms) {
                seq![
                    gen_bullet_spec(gun_ticked(p, delta_ms).gun.bullet_config, p.pos, p.pos),
                ]
            } else {
                Seq::<Bullet>::empty()
            })
        },
    }
}

/// What one motion pass does: every projectile advances by its
/// velocity times the step, saturating at the world boundary; nothing
/// else changes.
pub open spec fn apply_velocity_rel(pre: World, post: World, delta_ms: u32) -> bool {
    &&& post == (World { bullets: post.bullets, ..pre })
    &&& post.bullets@.len() == pre.bullets@.len()
    &&& forall|i: int|
        0 <= i < pre.bullets@.len() ==> post.bullets@[i] == (Bullet {
            pos: moved_spec(pre.bullets@[i].pos, pre.bullets@[i].vel, delta_ms),
            ..pre.bullets@[i]
        })
}

/// What one player-movement pass does: one clamped speed-step along
/// each pressed axis; nothing else changes, and no player appears.
pub open spec fn move_player_plane_rel(
    pre: World,
    post: World,
    dir_x: i64,
    dir_y: i64,
    delta_ms: u32,
) -> bool {
    &&& post == (World { player: post.player, ..pre })
    &&& match pre.player {
        None => post.player is None,
        Some(p) => post.player == Some(
            Plane { pos: moved_player_spec(p.pos, dir_x, dir_y, delta_ms), ..p },
        ),
    }
}

} // verus!
