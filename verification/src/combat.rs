//! Projectile collision and damage resolution.
//!
//! Each tick, every projectile is tested against the live damage
//! targets in a fixed, documented order: the enemies in storage
//! order, then the player, then the walls. A projectile bursts on the
//! first target it overlaps and is removed; it damages at most that
//! one target. A damaged plane loses the bullet's harm; a plane whose
//! hit points run out is destroyed in the same pass — the player's
//! destruction loses the game, an enemy's destruction scores a point.
//! A wall takes no damage and is never removed. The whole pass is
//! specified by a fold of the single-bullet transition
//! [`strike_step`] over the projectiles in storage order.

use vstd::prelude::*;
use crate::config::HARM_BULLET;
use crate::entities::{Bullet, GameState, HittingEvent, Plane, Wall};
use crate::geom::{circle_box_hit, circle_box_hit_spec};
use crate::world::World;

verus! {

/// The part of the world a bullet strike can touch.
pub struct CombatState {
    pub enemies: Seq<Plane>,
    pub player: Option<Plane>,
    pub score: u32,
    pub state: GameState,
}

pub open spec fn combat_of(w: World) -> CombatState {
    CombatState { enemies: w.enemies@, player: w.player, score: w.score, state: w.state }
}

/// A projectile's circle overlaps a plane's box.
pub open spec fn bullet_hits_plane(b: Bullet, p: Plane) -> bool {
    circle_box_hit_spec(b.pos, b.radius as int, p.pos, p.scale.x as int / 2, p.scale.y as int / 2)
}

/// A projectile's circle overlaps a wall's box.
pub open spec fn bullet_hits_wall(b: Bullet, w: Wall) -> bool {
    circle_box_hit_spec(b.pos, b.radius as int, w.pos, w.scale.x as int / 2, w.scale.y as int / 2)
}

/// The least enemy index the bullet overlaps, if any.
pub open spec fn first_plane_hit(s: Seq<Plane>, b: Bullet) -> Option<int>
    decreases s.len(),
{
    if s.len() <= 0 {
        None
    } else if bullet_hits_plane(b, s[0]) {
        Some(0int)
    } else {
        match first_plane_hit(s.drop_first(), b) {
            Some(i) => Some(i + 1),
            None => None::<int>,
        }
    }
}

pub open spec fn hits_some_wall(walls: Seq<Wall>, b: Bullet) -> bool {
    exists|i: int| 0 <= i < walls.len() && bullet_hits_wall(b, #[trigger] walls[i])
}

pub open spec fn hits_player(c: CombatState, b: Bullet) -> bool {
    c.player matches Some(p) && bullet_hits_plane(b, p)
}

/// The score after one more destroyed enemy; it sticks at the top of
/// its range rather than wrapping.
pub open spec fn sat_inc(score: u32) -> u32 {
    if score == u32::MAX {
        score
    } else {
        (score + 1) as u32
    }
}

/// What one bullet does to the combat state: it damages the first
/// target it overlaps — the enemies in storage order first, then the
/// player — and destroys it when its hit points run out. Walls and
/// misses change nothing.
pub open spec fn strike_step(c: CombatState, b: Bullet) -> CombatState {
    match first_plane_hit(c.enemies, b) {
        Some(i) => {
            let e = c.enemies[i];
            if e.hp > HARM_BULLET {
                CombatState {
                    enemies: c.enemies.update(i, Plane { hp: (e.hp - HARM_BULLET) as u32, ..e }),
                    ..c
                }
            } else {
                CombatState { enemies: c.enemies.remove(i), score: sat_inc(c.score), ..c }
            }
        },
        None => match c.player {
            Some(p) => {
                if bullet_hits_plane(b, p) {
                    if p.hp > HARM_BULLET {
                        CombatState {
                            player: Some(Plane { hp: (p.hp - HARM_BULLET) as u32, ..p }),
                            ..c
                        }
                    } else {
                        CombatState { player: None, state: GameState::Lose, ..c }
                    }
                } else {
                    c
                }
            },
            None => c,
        },
    }
}

/// Whether the bullet bursts this tick: it overlaps an enemy, the
/// player, or a wall.
pub open spec fn bullet_consumed(c: CombatState, walls: Seq<Wall>, b: Bullet) -> bool {
    ||| first_plane_hit(c.enemies, b) is Some
    ||| hits_player(c, b)
    ||| hits_some_wall(walls, b)
}

/// The events one bullet emits: a target hit, a wall hit, or nothing.
pub open spec fn strike_events(c: CombatState, walls: Seq<Wall>, b: Bullet) -> Seq<HittingEvent> {
    if first_plane_hit(c.enemies, b) is Some || hits_player(c, b) {
        seq![HittingEvent::HitTarget]
    } else if hits_some_wall(walls, b) {
        seq![HittingEvent::HitWall]
    } else {
        Seq::empty()
    }
}

/// The combat state after the first `n` bullets resolved, in storage
/// order.
pub open spec fn resolve_prefix(c: CombatState, bs: Seq<Bullet>, n: int) -> CombatState
    decreases n,
{
    if n <= 0 {
        c
    } else {
        strike_step(resolve_prefix(c, bs, n - 1), bs[n - 1])
    }
}

/// The bullets that survive the pass: those that burst on nothing.
pub open spec fn kept_prefix(c: CombatState, walls: Seq<Wall>, bs: Seq<Bullet>, n: int) -> Seq<
    Bullet,
>
    decreases n,
{
    if n <= 0 {
        Seq::empty()
    } else {
        let prev = kept_prefix(c, walls, bs, n - 1);
        if bullet_consumed(resolve_prefix(c, bs, n - 1), walls, bs[n - 1]) {
            prev
        } else {
            prev.push(bs[n - 1])
        }
    }
}

/// The events of the whole pass, bullet by bullet.
pub open spec fn events_prefix(c: CombatState, walls: Seq<Wall>, bs: Seq<Bullet>, n: int) -> Seq<
    HittingEvent,
>
    decreases n,
{
    if n <= 0 {
        Seq::empty()
    } else {
        events_prefix(c, walls, bs, n - 1) + strike_events(
            resolve_prefix(c, bs, n - 1),
            walls,
            bs[n - 1],
        )
    }
}

/// A bullet overlapping no enemy up to index `i` but enemy `i` itself
/// hits exactly there first.
proof fn lemma_first_plane_hit_found(s: Seq<Plane>, b: Bullet, i: int)
    requires
        0 <= i < s.len(),
        bullet_hits_plane(b, s[i]),
        forall|j: int| 0 <= j < i ==> !bullet_hits_plane(b, s[j]),
    ensures
        first_plane_hit(s, b) == Some(i),
    decreases s.len(),
{
    if !bullet_hits_plane(b, s[0]) {
        lemma_first_plane_hit_found(s.drop_first(), b, i - 1);
    }
}

/// A bullet overlapping no enemy hits none first.
proof fn lemma_first_plane_hit_none(s: Seq<Plane>, b: Bullet)
    requires
        forall|j: int| 0 <= j < s.len() ==> !bullet_hits_plane(b, s[j]),
    ensures
        first_plane_hit(s, b) is None,
    decreases s.len(),
{
    if s.len() > 0 {
        lemma_first_plane_hit_none(s.drop_first(), b);
    }
}


/// What the whole projectile pass does: the combat state is the fold
/// of the single-bullet strike over the projectiles in storage order,
/// the surviving projectiles are exactly those that burst on nothing,
/// and the pass's events are appended in order. Nothing else changes.
pub open spec fn bullet_hitting_rel(
    pre: World,
    post: World,
    ev_pre: Seq<HittingEvent>,
    ev_post: Seq<HittingEvent>,
) -> bool {
    &&& post == (World {
        enemies: post.enemies,
        player: post.player,
        score: post.score,
        state: post.state,
        bullets: post.bullets,
        ..pre
    })
    &&& combat_of(post) == resolve_prefix(
        combat_of(pre),
        pre.bullets@,
        pre.bullets@.len() as int,
    )
    &&& post.bullets@ == kept_prefix(
        combat_of(pre),
        pre.walls@,
        pre.bullets@,
        pre.bullets@.len() as int,
    )
    &&& ev_post == ev_pre + events_prefix(
        combat_of(pre),
        pre.walls@,
        pre.bullets@,
        pre.bullets@.len() as int,
    )
}

impl World {
    /// Resolve one projectile against the targets in the documented
    /// order and report whether it burst. The projectile list itself
    /// is left to the caller.
    fn strike(&mut self, b: Bullet, events: &mut Vec<HittingEvent>) -> (consumed: bool)
        requires
            old(self).wf(),
            b.valid(),
        ensures
            final(self).wf(),
            *final(self) == (World {
                enemies: final(self).enemies,
                player: final(self).player,
                score: final(self).score,
                state: final(self).state,
                ..*old(self)
            }),
            combat_of(*final(self)) == strike_step(combat_of(*old(self)), b),
            consumed == bullet_consumed(combat_of(*old(self)), old(self).walls@, b),
            final(events)@ == old(events)@ + strike_events(
                combat_of(*old(self)),
                old(self).walls@,
                b,
            ),
    {
        let mut i: usize = 0;
        while i < self.enemies.len()
            invariant
                i <= self.enemies@.len(),
                *self == *old(self),
                events@ == old(events)@,
                forall|j: int| 0 <= j < i ==> !bullet_hits_plane(b, old(self).enemies@[j]),
            decreases self.enemies@.len() - i,
        {
            let e = self.enemies[i];
            if circle_box_hit(b.pos, b.radius, e.pos, e.scale.x / 2, e.scale.y / 2) {
                proof {
                    lemma_first_plane_hit_found(old(self).enemies@, b, i as int);
                }
                if e.hp > HARM_BULLET {
                    let updated = Plane { hp: e.hp - HARM_BULLET, ..e };
                    self.enemies.remove(i);
                    self.enemies.insert(i, updated);
                    proof {
                        assert(self.enemies@ =~= old(self).enemies@.update(i as int, updated));
                    }
                } else {
                    self.enemies.remove(i);
                }
                if e.hp <= HARM_BULLET {
                    self.score = if self.score == u32::MAX {
                        self.score
                    } else {
                        self.score + 1
                    };
                }
                events.push(HittingEvent::HitTarget);
                proof {
                    assert(final(events)@ =~= old(events)@ + seq![HittingEvent::HitTarget]);
                }
                return true;
            }
            i = i + 1;
        }
        proof {
            lemma_first_plane_hit_none(old(self).enemies@, b);
        }
        match self.player {
            Some(p) => {
                if circle_box_hit(b.pos, b.radius, p.pos, p.scale.x / 2, p.scale.y / 2) {
                    if p.hp > HARM_BULLET {
                        self.player = Some(Plane { hp: p.hp - HARM_BULLET, ..p });
                    } else {
                        self.player = None;
                        self.state = GameState::Lose;
                    }
                    events.push(HittingEvent::HitTarget);
                    proof {
                        assert(final(events)@ =~= old(events)@ + seq![HittingEvent::HitTarget]);
                    }
                    return true;
                }
            },
            None => {},
        }
        let mut k: usize = 0;
        while k < self.walls.len()
            invariant
                k <= self.walls@.len(),
                *self == *old(self),
                events@ == old(events)@,
                forall|j: int| 0 <= j < k ==> !bullet_hits_wall(b, old(self).walls@[j]),
            decreases self.walls@.len() - k,
        {
            let w = self.walls[k];
            if circle_box_hit(b.pos, b.radius, w.pos, w.scale.x / 2, w.scale.y / 2) {
                events.push(HittingEvent::HitWall);
                proof {
                    assert(final(events)@ =~= old(events)@ + seq![HittingEvent::HitWall]);
                }
                return true;
            }
            k = k + 1;
        }
        proof {
            assert(final(events)@ =~= old(events)@ + Seq::<HittingEvent>::empty());
        }
        false
    }

    /// Resolve every projectile against the live targets, in storage
    /// order, removing each projectile that burst and keeping the
    /// rest in order.
    pub fn check_for_bullet_hitting(&mut self, events: &mut Vec<HittingEvent>)
        requires
            old(self).wf(),
        ensures
            final(self).wf(),
            bullet_hitting_rel(*old(self), *final(self), old(events)@, final(events)@),
    {
        let ghost c0 = combat_of(*old(self));
        let mut kept: Vec<Bullet> = Vec::new();
        let mut i: usize = 0;
        while i < self.bullets.len()
            invariant
                i <= old(self).bullets@.len(),
                self.wf(),
                self.bullets == old(self).bullets,
                *self == (World {
                    enemies: self.enemies,
                    player: self.player,
                    score: self.score,
                    state: self.state,
                    ..*old(self)
                }),
                combat_of(*self) == resolve_prefix(c0, old(self).bullets@, i as int),
                kept@ == kept_prefix(c0, old(self).walls@, old(self).bullets@, i as int),
                forall|j: int| 0 <= j < kept@.len() ==> (#[trigger] kept@[j]).valid(),
                events@ == old(events)@ + events_prefix(
                    c0,
                    old(self).walls@,
                    old(self).bullets@,
                    i as int,
                ),
            decreases old(self).bullets@.len() - i,
        {
            let b = self.bullets[i];
            let consumed = self.strike(b, events);
            if !consumed {
                kept.push(b);
            }
            i = i + 1;
        }
        self.bullets = kept;
    }
}

} // verus!
