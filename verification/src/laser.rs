//! The laser: the player's timed beam weapon, its damage pass, and
//! the pickups that grant its charge.
//!
//! The beam is redrawn every tick: the previous tick's segments are
//! removed before firing adds a new one, so the beam always reflects
//! the player's current position. Its damage runs on its own slower
//! clock, independent of the redraw. Pickups spawn on a per-level
//! interval, vanish after a lifetime if never captured, and on
//! capture arm the laser with a full charge.

use vstd::prelude::*;
use crate::config::{HARM_LASER, LASER_DURATION_MS, LASER_STAR_RADIUS};
use crate::entities::{HittingEvent, Laser, LaserRay, LaserStar, Plane, Wall};
use crate::generator::{gen_laser_star, gen_laserray, gen_laserray_spec, star_region_spec};
use crate::geom::{box_box_hit, box_box_hit_spec, circle_box_hit, circle_box_hit_spec};
use crate::timer::{Timer, TimerMode};
use crate::world::World;

verus! {

/// A beam segment's box overlaps a plane's box.
pub open spec fn ray_hits_plane(r: LaserRay, p: Plane) -> bool {
    box_box_hit_spec(
        r.pos,
        r.scale.x as int / 2,
        r.scale.y as int / 2,
        p.pos,
        p.scale.x as int / 2,
        p.scale.y as int / 2,
    )
}

/// A beam segment's box overlaps a wall's box.
pub open spec fn ray_hits_wall(r: LaserRay, w: Wall) -> bool {
    box_box_hit_spec(
        r.pos,
        r.scale.x as int / 2,
        r.scale.y as int / 2,
        w.pos,
        w.scale.x as int / 2,
        w.scale.y as int / 2,
    )
}

/// The player's box overlaps a pickup's capture circle.
pub open spec fn player_captures_star(p: Plane, s: LaserStar) -> bool {
    circle_box_hit_spec(
        s.pos,
        LASER_STAR_RADIUS as int,
        p.pos,
        p.scale.x as int / 2,
        p.scale.y as int / 2,
    )
}

/// The score after `k` more destroyed enemies, sticking at the top of
/// its range.
pub open spec fn sat_add(score: u32, k: int) -> u32 {
    if score + k > u32::MAX {
        u32::MAX
    } else {
        (score + k) as u32
    }
}

/// The first `n` enemies after one beam segment's damage pass, in
/// storage order: an overlapped enemy loses the beam's harm, and is
/// destroyed when its hit points run out. The beam itself persists,
/// so one segment can damage several enemies in one pass.
pub open spec fn beam_enemies_prefix(s: Seq<Plane>, r: LaserRay, n: int) -> Seq<Plane>
    decreases n,
{
    if n <= 0 {
        Seq::empty()
    } else {
        let prev = beam_enemies_prefix(s, r, n - 1);
        let e = s[n - 1];
        if ray_hits_plane(r, e) {
            if e.hp > HARM_LASER {
                prev.push(Plane { hp: (e.hp - HARM_LASER) as u32, ..e })
            } else {
                prev
            }
        } else {
            prev.push(e)
        }
    }
}

/// How many of the first `n` enemies one beam segment destroys.
pub open spec fn beam_kills_prefix(s: Seq<Plane>, r: LaserRay, n: int) -> int
    decreases n,
{
    if n <= 0 {
        0
    } else {
        beam_kills_prefix(s, r, n - 1) + (if ray_hits_plane(r, s[n - 1]) && s[n - 1].hp
            <= HARM_LASER {
            1int
        } else {
            0int
        })
    }
}

/// The target-hit events of one beam segment over the first `n`
/// enemies.
pub open spec fn beam_enemy_events_prefix(s: Seq<Plane>, r: LaserRay, n: int) -> Seq<HittingEvent>
    decreases n,
{
    if n <= 0 {
        Seq::empty()
    } else {
        beam_enemy_events_prefix(s, r, n - 1) + (if ray_hits_plane(r, s[n - 1]) {
            seq![HittingEvent::HitTarget]
        } else {
            Seq::<HittingEvent>::empty()
        })
    }
}

/// The wall-hit events of one beam segment over the first `n` walls.
pub open spec fn beam_wall_events_prefix(walls: Seq<Wall>, r: LaserRay, n: int) -> Seq<
    HittingEvent,
>
    decreases n,
{
    if n <= 0 {
        Seq::empty()
    } else {
        beam_wall_events_prefix(walls, r, n - 1) + (if ray_hits_wall(r, walls[n - 1]) {
            seq![HittingEvent::HitWall]
        } else {
            Seq::<HittingEvent>::empty()
        })
    }
}

/// The enemies surviving one whole beam segment.
pub open spec fn beam_step_enemies(s: Seq<Plane>, r: LaserRay) -> Seq<Plane> {
    beam_enemies_prefix(s, r, s.len() as int)
}

/// The score after one whole beam segment.
pub open spec fn beam_step_score(score: u32, s: Seq<Plane>, r: LaserRay) -> u32 {
    sat_add(score, beam_kills_prefix(s, r, s.len() as int))
}

/// Every event one whole beam segment emits: the enemies it touches
/// in storage order, then the walls it touches in storage order.
pub open spec fn beam_ray_events(s: Seq<Plane>, walls: Seq<Wall>, r: LaserRay) -> Seq<
    HittingEvent,
> {
    beam_enemy_events_prefix(s, r, s.len() as int) + beam_wall_events_prefix(
        walls,
        r,
        walls.len() as int,
    )
}

/// The enemies surviving the first `n` beam segments.
pub open spec fn beam_resolve_enemies(s: Seq<Plane>, rays: Seq<LaserRay>, n: int) -> Seq<Plane>
    decreases n,
{
    if n <= 0 {
        s
    } else {
        beam_step_enemies(beam_resolve_enemies(s, rays, n - 1), rays[n - 1])
    }
}

/// The score after the first `n` beam segments.
pub open spec fn beam_resolve_score(score: u32, s: Seq<Plane>, rays: Seq<LaserRay>, n: int) -> u32
    decreases n,
{
    if n <= 0 {
        score
    } else {
        beam_step_score(
            beam_resolve_score(score, s, rays, n - 1),
            beam_resolve_enemies(s, rays, n - 1),
            rays[n - 1],
        )
    }
}

/// The events of the first `n` beam segments.
pub open spec fn beam_resolve_events(
    s: Seq<Plane>,
    walls: Seq<Wall>,
    rays: Seq<LaserRay>,
    n: int,
) -> Seq<HittingEvent>
    decreases n,
{
    if n <= 0 {
        Seq::empty()
    } else {
        beam_resolve_events(s, walls, rays, n - 1) + beam_ray_events(
            beam_resolve_enemies(s, rays, n - 1),
            walls,
            rays[n - 1],
        )
    }
}

/// A beam segment destroys a non-negative number of enemies.
pub proof fn lemma_beam_kills_prefix_nonneg(s: Seq<Plane>, r: LaserRay, n: int)
    ensures
        0 <= beam_kills_prefix(s, r, n),
    decreases n,
{
    if n > 0 {
        lemma_beam_kills_prefix_nonneg(s, r, n - 1);
    }
}

/// Whether the player fires the laser this tick: the charge is armed
/// and not yet spent, and the trigger is held.
pub open spec fn laser_fires(player: Option<Plane>, trigger_held: bool) -> bool {
    &&& player matches Some(p)
    &&& p.laser.enabled
    &&& p.laser.duration_timer matches Some(t) && !t.finished
    &&& trigger_held
}

impl World {
    /// Remove the previous tick's beam segments; firing redraws the
    /// beam afterwards.
    pub fn clear_laser(&mut self)
        requires
            old(self).wf(),
        ensures
            final(self).wf(),
            clear_laser_rel(*old(self), *final(self)),
    {
        self.rays = Vec::new();
    }

    /// Fire the laser while its charge lasts: spend the held
    /// trigger's time from the duration timer and add the beam
    /// segment from the player's position to the top of the arena.
    /// Once the charge is spent, holding the trigger does nothing.
    pub fn shoot_laser(&mut self, trigger_held: bool, delta_ms: u32)
        requires
            old(self).wf(),
        ensures
            final(self).wf(),
            shoot_laser_rel(*old(self), *final(self), trigger_held, delta_ms),
    {
        let p = match self.player {
            None => { return ; },
            Some(p) => p,
        };
        if !p.laser.enabled {
            return ;
        }
        let mut t = match p.laser.duration_timer {
            None => { return ; },
            Some(t) => t,
        };
        if t.is_finished() || !trigger_held {
            return ;
        }
        t.tick(delta_ms);
        self.player = Some(
            Plane { laser: Laser { duration_timer: Some(t), ..p.laser }, ..p },
        );
        let ray = gen_laserray(p.pos);
        self.rays.push(ray);
        proof {
            assert(self.rays@ =~= old(self).rays@ + seq![gen_laserray_spec(p.pos)]);
        }
    }

    /// One beam segment's damage pass: every enemy the segment
    /// overlaps loses the beam's harm, the destroyed ones leave and
    /// score, and each overlapped wall reports a wall hit.
    fn beam_sweep(&mut self, ray: LaserRay, events: &mut Vec<HittingEvent>)
        requires
            old(self).wf(),
            ray.valid(),
        ensures
            final(self).wf(),
            *final(self) == (World {
                enemies: final(self).enemies,
                score: final(self).score,
                ..*old(self)
            }),
            final(self).enemies@ == beam_step_enemies(old(self).enemies@, ray),
            final(self).score == beam_step_score(old(self).score, old(self).enemies@, ray),
            final(events)@ == old(events)@ + beam_ray_events(
                old(self).enemies@,
                old(self).walls@,
                ray,
            ),
    {
        let mut survivors: Vec<Plane> = Vec::new();
        let mut i: usize = 0;
        while i < self.enemies.len()
            invariant
                i <= old(self).enemies@.len(),
                *self == (World { score: self.score, ..*old(self) }),
                survivors@ == beam_enemies_prefix(old(self).enemies@, ray, i as int),
                forall|j: int|
                    0 <= j < survivors@.len() ==> exists|oi: int|
                        0 <= oi < i && (#[trigger] survivors@[j]).id == old(self).enemies@[oi].id,
                forall|j: int|
                    0 <= j < survivors@.len() ==> (#[trigger] survivors@[j]).valid()
                        && survivors@[j].id < old(self).next_id,
                forall|j: int, k: int|
                    0 <= j < k < survivors@.len() ==> survivors@[j].id != survivors@[k].id,
                self.score == sat_add(
                    old(self).score,
                    beam_kills_prefix(old(self).enemies@, ray, i as int),
                ),
                events@ == old(events)@ + beam_enemy_events_prefix(
                    old(self).enemies@,
                    ray,
                    i as int,
                ),
            decreases old(self).enemies@.len() - i,
        {
            proof {
                lemma_beam_kills_prefix_nonneg(old(self).enemies@, ray, i as int);
            }
            let e = self.enemies[i];
            if box_box_hit(
                ray.pos,
                ray.scale.x / 2,
                ray.scale.y / 2,
                e.pos,
                e.scale.x / 2,
                e.scale.y / 2,
            ) {
                if e.hp > HARM_LASER {
                    survivors.push(Plane { hp: e.hp - HARM_LASER, ..e });
                    proof {
                        assert(survivors@.last().id == old(self).enemies@[i as int].id);
                    }
                } else {
                    self.score = if self.score == u32::MAX {
                        self.score
                    } else {
                        self.score + 1
                    };
                }
                events.push(HittingEvent::HitTarget);
            } else {
                survivors.push(e);
            }
            i = i + 1;
        }
        self.enemies = survivors;
        let mut k: usize = 0;
        while k < self.walls.len()
            invariant
                k <= old(self).walls@.len(),
                *self == (World {
                    enemies: self.enemies,
                    score: self.score,
                    ..*old(self)
                }),
                self.enemies@ == beam_step_enemies(old(self).enemies@, ray),
                self.score == beam_step_score(old(self).score, old(self).enemies@, ray),
                self.wf(),
                events@ == old(events)@ + beam_enemy_events_prefix(
                    old(self).enemies@,
                    ray,
                    old(self).enemies@.len() as int,
                ) + beam_wall_events_prefix(old(self).walls@, ray, k as int),
            decreases old(self).walls@.len() - k,
        {
            let w = self.walls[k];
            if box_box_hit(
                ray.pos,
                ray.scale.x / 2,
                ray.scale.y / 2,
                w.pos,
                w.scale.x / 2,
                w.scale.y / 2,
            ) {
                events.push(HittingEvent::HitWall);
            }
            k = k + 1;
        }
    }

    /// The beam's damage pass, gated by its own clock: when the
    /// damage timer fires, every live beam segment sweeps the enemies
    /// and the walls, in storage order.
    pub fn check_for_laserray_hitting(&mut self, delta_ms: u32, events: &mut Vec<HittingEvent>)
        requires
            old(self).wf(),
        ensures
            final(self).wf(),
            laserray_hitting_rel(
                *old(self),
                *final(self),
                delta_ms,
                old(events)@,
                final(events)@,
            ),
    {
        let fired = self.laser_attack_timer.tick(delta_ms);
        if !fired {
            return ;
        }
        let ghost e0 = self.enemies@;
        let ghost s0 = self.score;
        let mut i: usize = 0;
        while i < self.rays.len()
            invariant
                i <= old(self).rays@.len(),
                *self == (World {
                    enemies: self.enemies,
                    score: self.score,
                    laser_attack_timer: self.laser_attack_timer,
                    ..*old(self)
                }),
                self.laser_attack_timer == old(self).laser_attack_timer.tick_spec(delta_ms),
                self.wf(),
                self.enemies@ == beam_resolve_enemies(e0, old(self).rays@, i as int),
                self.score == beam_resolve_score(s0, e0, old(self).rays@, i as int),
                events@ == old(events)@ + beam_resolve_events(
                    e0,
                    old(self).walls@,
                    old(self).rays@,
                    i as int,
                ),
            decreases old(self).rays@.len() - i,
        {
            let ray = self.rays[i];
            self.beam_sweep(ray, events);
            i = i + 1;
        }
    }

    /// Test the live pickup against the player; on capture the pickup
    /// leaves, the laser is armed with a full charge, and a pickup
    /// event is reported.
    pub fn check_for_laser_star_capture(&mut self, events: &mut Vec<HittingEvent>)
        requires
            old(self).wf(),
        ensures
            final(self).wf(),
            laser_star_capture_rel(*old(self), *final(self), old(events)@, final(events)@),
    {
        let s = match self.star {
            None => { return ; },
            Some(s) => s,
        };
        let p = match self.player {
            None => { return ; },
            Some(p) => p,
        };
        if circle_box_hit(s.pos, LASER_STAR_RADIUS, p.pos, p.scale.x / 2, p.scale.y / 2) {
            self.star = None;
            self.player = Some(
                Plane {
                    laser: Laser {
                        enabled: true,
                        duration_timer: Some(Timer::new(LASER_DURATION_MS, TimerMode::Once)),
                    },
                    ..p
                },
            );
            events.push(HittingEvent::HitLaserPickup);
            proof {
                assert(final(events)@ =~= old(events)@ + seq![HittingEvent::HitLaserPickup]);
            }
        }
    }

    /// Tick the pickup clock; when it fires, place a fresh pickup in
    /// the safe region and restart its lifetime. With no player
    /// (between defeat and teardown) the clock stands still.
    pub fn add_laser_star(&mut self, delta_ms: u32)
        requires
            old(self).wf(),
        ensures
            final(self).wf(),
            add_laser_star_rel(*old(self), *final(self), delta_ms),
    {
        if self.player.is_none() {
            return ;
        }
        let fired = self.star_generate_timer.tick(delta_ms);
        if !fired {
            return ;
        }
        self.star = Some(gen_laser_star());
        self.star_vanish_timer.reset();
    }

    /// Tick the pickup's lifetime; when it runs out, any uncaptured
    /// pickup vanishes.
    pub fn remove_laser_star(&mut self, delta_ms: u32)
        requires
            old(self).wf(),
        ensures
            final(self).wf(),
            remove_laser_star_rel(*old(self), *final(self), delta_ms),
    {
        let fired = self.star_vanish_timer.tick(delta_ms);
        if fired {
            self.star = None;
        }
    }

    /// The seconds readout of the laser charge: the time left on the
    /// duration timer while the laser is armed, nothing otherwise.
    pub fn laser_remaining_ms(&self) -> (r: Option<u64>)
        requires
            self.wf(),
        ensures
            match self.player {
                Some(p) => if p.laser.enabled {
                    ({
                        let t = p.laser.duration_timer->Some_0;
                        r == Some((t.duration_ms - t.elapsed_ms) as u64)
                    })
                } else {
                    r is None
                },
                None => r is None,
            },
    {
        match &self.player {
            None => None,
            Some(p) => {
                if !p.laser.enabled {
                    None
                } else {
                    match &p.laser.duration_timer {
                        Some(t) => Some(t.remaining_ms()),
                        None => None,
                    }
                }
            },
        }
    }
}


/// What clearing the beam does: the previous tick's segments leave;
/// nothing else changes.
pub open spec fn clear_laser_rel(pre: World, post: World) -> bool {
    &&& post == (World { rays: post.rays, ..pre })
    &&& post.rays@.len() == 0
}

/// What one firing pass does: while the charge is armed, unspent and
/// the trigger held, the duration timer spends the step and one beam
/// segment is appended at the player's position; otherwise nothing
/// changes.
pub open spec fn shoot_laser_rel(pre: World, post: World, trigger_held: bool, delta_ms: u32) -> bool {
    &&& post == (World { player: post.player, rays: post.rays, ..pre })
    &&& if laser_fires(pre.player, trigger_held) {
        ({
            let p = pre.player->Some_0;
            let t = p.laser.duration_timer->Some_0;
            &&& post.player == Some(
                Plane {
                    laser: Laser { duration_timer: Some(t.tick_spec(delta_ms)), ..p.laser },
                    ..p
                },
            )
            &&& post.rays@ == pre.rays@ + seq![gen_laserray_spec(p.pos)]
        })
    } else {
        post == pre
    }
}

/// What the beam's damage pass does: its own clock ticks; when it
/// fires, every live segment sweeps the enemies and the walls in
/// storage order; otherwise nothing else changes.
pub open spec fn laserray_hitting_rel(
    pre: World,
    post: World,
    delta_ms: u32,
    ev_pre: Seq<HittingEvent>,
    ev_post: Seq<HittingEvent>,
) -> bool {
    &&& post == (World {
        enemies: post.enemies,
        score: post.score,
        laser_attack_timer: post.laser_attack_timer,
        ..pre
    })
    &&& post.laser_attack_timer == pre.laser_attack_timer.tick_spec(delta_ms)
    &&& if pre.laser_attack_timer.tick_spec(delta_ms).just_finished {
        ({
            let n = pre.rays@.len() as int;
            &&& post.enemies@ == beam_resolve_enemies(pre.enemies@, pre.rays@, n)
            &&& post.score == beam_resolve_score(pre.score, pre.enemies@, pre.rays@, n)
            &&& ev_post == ev_pre + beam_resolve_events(pre.enemies@, pre.walls@, pre.rays@, n)
        })
    } else {
        ({
            &&& post.enemies == pre.enemies
            &&& post.score == pre.score
            &&& ev_post == ev_pre
        })
    }
}

/// What the capture pass does: when the player overlaps the live
/// pickup, the pickup leaves, the laser is armed with a full charge
/// and a pickup event is reported; otherwise nothing changes.
pub open spec fn laser_star_capture_rel(
    pre: World,
    post: World,
    ev_pre: Seq<HittingEvent>,
    ev_post: Seq<HittingEvent>,
) -> bool {
    &&& post == (World { player: post.player, star: post.star, ..pre })
    &&& if pre.star matches Some(s) && pre.player matches Some(p) && player_captures_star(p, s) {
        ({
            let p = pre.player->Some_0;
            &&& post.star is None
            &&& post.player == Some(
                Plane {
                    laser: Laser {
                        enabled: true,
                        duration_timer: Some(Timer::new_spec(LASER_DURATION_MS, TimerMode::Once)),
                    },
                    ..p
                },
            )
            &&& ev_post == ev_pre + seq![HittingEvent::HitLaserPickup]
        })
    } else {
        post == pre && ev_post == ev_pre
    }
}

/// What the pickup-spawn pass does: with a player present, the pickup
/// clock ticks; when it fires, a fresh pickup stands somewhere in the
/// safe region and its lifetime restarts.
pub open spec fn add_laser_star_rel(pre: World, post: World, delta_ms: u32) -> bool {
    &&& post == (World {
        star: post.star,
        star_generate_timer: post.star_generate_timer,
        star_vanish_timer: post.star_vanish_timer,
        ..pre
    })
    &&& (pre.player is None ==> post == pre)
    &&& (pre.player is Some ==> {
        let t2 = pre.star_generate_timer.tick_spec(delta_ms);
        &&& post.star_generate_timer == t2
        &&& if t2.just_finished {
            &&& post.star matches Some(s) && star_region_spec().admits(s.pos)
            &&& post.star_vanish_timer == (Timer {
                elapsed_ms: 0,
                finished: false,
                just_finished: false,
                ..pre.star_vanish_timer
            })
        } else {
            &&& post.star == pre.star
            &&& post.star_vanish_timer == pre.star_vanish_timer
        }
    })
}

/// What the pickup-expiry pass does: the lifetime ticks; when it runs
/// out, any uncaptured pickup vanishes.
pub open spec fn remove_laser_star_rel(pre: World, post: World, delta_ms: u32) -> bool {
    &&& post == (World {
        star: post.star,
        star_vanish_timer: post.star_vanish_timer,
        ..pre
    })
    &&& post.star_vanish_timer == pre.star_vanish_timer.tick_spec(delta_ms)
    &&& post.star == (if pre.star_vanish_timer.tick_spec(delta_ms).just_finished {
        None::<LaserStar>
    } else {
        pre.star
    })
}

} // verus!
