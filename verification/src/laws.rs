//! The laws the simulation obeys, stated and proved over the
//! subsystem transition functions.

use vstd::prelude::*;
use crate::combat::{
    bullet_consumed, first_plane_hit, hits_player, hits_some_wall, resolve_prefix, strike_events,
    strike_step, CombatState,
};
use crate::config::{WaveConfig, HARM_BULLET};
use crate::entities::{Bullet, GameState, HittingEvent, LaserRay, Plane, Wall};
use crate::laser::{
    beam_enemies_prefix, beam_resolve_enemies, beam_resolve_score, laser_fires,
    lemma_beam_kills_prefix_nonneg,
};
use crate::timer::Timer;
use crate::world::{next_wave_spec, World};

verus! {

/// A plane descends from one in `pre`: same identity, no more hit
/// points.
pub open spec fn traces_to(pre: Seq<Plane>, p: Plane) -> bool {
    exists|i: int| 0 <= i < pre.len() && (#[trigger] pre[i]).id == p.id && p.hp <= pre[i].hp
}

/// Damage monotonicity over the enemies: every plane alive after a
/// step was either spawned during it (its identity is at least
/// `fresh_from`) or descends from a plane alive before it with no
/// more hit points.
pub open spec fn hp_monotone(pre: Seq<Plane>, post: Seq<Plane>, fresh_from: u64) -> bool {
    forall|j: int|
        0 <= j < post.len() ==> ((#[trigger] post[j]).id >= fresh_from || traces_to(pre, post[j]))
}

/// Damage monotonicity over the player: it is never replaced and its
/// hit points never grow within a step.
pub open spec fn player_hp_monotone(pre: Option<Plane>, post: Option<Plane>) -> bool {
    post matches Some(p2) ==> (pre matches Some(p1) && p2.hp <= p1.hp && p2.id == p1.id)
}

pub proof fn lemma_hp_monotone_refl(s: Seq<Plane>, fresh_from: u64)
    ensures
        hp_monotone(s, s, fresh_from),
{
    assert forall|j: int| 0 <= j < s.len() implies (#[trigger] s[j]).id >= fresh_from || traces_to(
        s,
        s[j],
    ) by {
        assert(0 <= j < s.len() && s[j].id == s[j].id && s[j].hp <= s[j].hp);
    }
}

/// Lowering the freshness threshold only weakens the claim.
pub proof fn lemma_hp_monotone_weaken(pre: Seq<Plane>, post: Seq<Plane>, f1: u64, f2: u64)
    requires
        hp_monotone(pre, post, f1),
        f2 <= f1,
    ensures
        hp_monotone(pre, post, f2),
{
}

pub proof fn lemma_hp_monotone_trans(a: Seq<Plane>, b: Seq<Plane>, c: Seq<Plane>, fresh_from: u64)
    requires
        hp_monotone(a, b, fresh_from),
        hp_monotone(b, c, fresh_from),
    ensures
        hp_monotone(a, c, fresh_from),
{
    assert forall|j: int| 0 <= j < c.len() implies (#[trigger] c[j]).id >= fresh_from || traces_to(
        a,
        c[j],
    ) by {
        if c[j].id < fresh_from {
            let i = choose|i: int| 0 <= i < b.len() && (#[trigger] b[i]).id == c[j].id && c[j].hp
                <= b[i].hp;
            assert(b[i].id < fresh_from);
            let k = choose|k: int| 0 <= k < a.len() && (#[trigger] a[k]).id == b[i].id && b[i].hp
                <= a[k].hp;
            assert(0 <= k < a.len() && a[k].id == c[j].id && c[j].hp <= a[k].hp);
        }
    }
}

/// One bullet strike only lowers hit points: every surviving enemy
/// descends from one alive before the strike.
pub proof fn lemma_strike_enemies_monotone(c: CombatState, b: Bullet, fresh_from: u64)
    ensures
        hp_monotone(c.enemies, strike_step(c, b).enemies, fresh_from),
{
    let post = strike_step(c, b).enemies;
    assert forall|j: int| 0 <= j < post.len() implies (#[trigger] post[j]).id >= fresh_from
        || traces_to(c.enemies, post[j]) by {
        match first_plane_hit(c.enemies, b) {
            Some(i) => {
                lemma_first_plane_hit_in_range(c.enemies, b);
                if c.enemies[i].hp > HARM_BULLET {
                    assert(0 <= j < c.enemies.len() && c.enemies[j].id == post[j].id && post[j].hp
                        <= c.enemies[j].hp);
                } else {
                    let k: int = if j < i {
                        j
                    } else {
                        j + 1
                    };
                    assert(0 <= k < c.enemies.len() && c.enemies[k].id == post[j].id && post[j].hp
                        <= c.enemies[k].hp);
                }
            },
            None => {
                assert(0 <= j < c.enemies.len() && c.enemies[j].id == post[j].id && post[j].hp
                    <= c.enemies[j].hp);
            },
        }
    }
}

/// A whole bullet pass only lowers hit points.
pub proof fn lemma_resolve_enemies_monotone(
    c: CombatState,
    bs: Seq<Bullet>,
    n: int,
    fresh_from: u64,
)
    ensures
        hp_monotone(c.enemies, resolve_prefix(c, bs, n).enemies, fresh_from),
    decreases n,
{
    if n <= 0 {
        lemma_hp_monotone_refl(c.enemies, fresh_from);
    } else {
        lemma_resolve_enemies_monotone(c, bs, n - 1, fresh_from);
        lemma_strike_enemies_monotone(resolve_prefix(c, bs, n - 1), bs[n - 1], fresh_from);
        lemma_hp_monotone_trans(
            c.enemies,
            resolve_prefix(c, bs, n - 1).enemies,
            resolve_prefix(c, bs, n).enemies,
            fresh_from,
        );
    }
}

/// A whole bullet pass never replaces or moves the player and never
/// raises its hit points, and never lowers the score.
pub proof fn lemma_resolve_player_and_score(c: CombatState, bs: Seq<Bullet>, n: int)
    ensures
        player_hp_monotone(c.player, resolve_prefix(c, bs, n).player),
        resolve_prefix(c, bs, n).player matches Some(p2) ==> (c.player matches Some(p1) && p2.pos
            == p1.pos),
        resolve_prefix(c, bs, n).score >= c.score,
    decreases n,
{
    if n > 0 {
        lemma_resolve_player_and_score(c, bs, n - 1);
    }
}

/// One beam segment only lowers hit points.
pub proof fn lemma_beam_prefix_monotone(s: Seq<Plane>, r: LaserRay, n: int, fresh_from: u64)
    requires
        0 <= n <= s.len(),
    ensures
        hp_monotone(s, beam_enemies_prefix(s, r, n), fresh_from),
    decreases n,
{
    if n > 0 {
        lemma_beam_prefix_monotone(s, r, n - 1, fresh_from);
        let prev = beam_enemies_prefix(s, r, n - 1);
        let post = beam_enemies_prefix(s, r, n);
        assert forall|j: int| 0 <= j < post.len() implies (#[trigger] post[j]).id >= fresh_from
            || traces_to(s, post[j]) by {
            if j < prev.len() {
                assert(prev[j] == post[j]);
            } else {
                assert(post[j].id == s[n - 1].id && post[j].hp <= s[n - 1].hp);
                assert(0 <= n - 1 < s.len() && s[n - 1].id == post[j].id && post[j].hp <= s[n
                    - 1].hp);
            }
        }
    }
}

/// A whole beam pass only lowers hit points and never lowers the
/// score.
pub proof fn lemma_beam_resolve_monotone(
    s: Seq<Plane>,
    score: u32,
    rays: Seq<LaserRay>,
    n: int,
    fresh_from: u64,
)
    ensures
        hp_monotone(s, beam_resolve_enemies(s, rays, n), fresh_from),
        beam_resolve_score(score, s, rays, n) >= score,
    decreases n,
{
    if n <= 0 {
        lemma_hp_monotone_refl(s, fresh_from);
    } else {
        lemma_beam_resolve_monotone(s, score, rays, n - 1, fresh_from);
        let prev = beam_resolve_enemies(s, rays, n - 1);
        lemma_beam_prefix_monotone(prev, rays[n - 1], prev.len() as int, fresh_from);
        lemma_hp_monotone_trans(
            s,
            prev,
            beam_resolve_enemies(s, rays, n),
            fresh_from,
        );
        lemma_beam_kills_prefix_nonneg(prev, rays[n - 1], prev.len() as int);
    }
}

/// One of the enemies was damaged in place or destroyed by a strike,
/// and nothing else changed.
pub open spec fn single_enemy_damaged(pre: Seq<Plane>, post: Seq<Plane>, i: int) -> bool {
    &&& 0 <= i < pre.len()
    &&& if pre[i].hp > HARM_BULLET {
        post == pre.update(i, Plane { hp: (pre[i].hp - HARM_BULLET) as u32, ..pre[i] })
    } else {
        post == pre.remove(i)
    }
}

/// The player was damaged in place or destroyed by a strike.
pub open spec fn player_damaged(pre: Option<Plane>, post: Option<Plane>) -> bool {
    &&& pre matches Some(p)
    &&& if p.hp > HARM_BULLET {
        post == Some(Plane { hp: (p.hp - HARM_BULLET) as u32, ..p })
    } else {
        post is None
    }
}

/// At most one hit per projectile: a single bullet strike damages at
/// most one target's health — one enemy, or the player, never both
/// and never more than one enemy.
pub proof fn lemma_strike_damages_at_most_one(c: CombatState, b: Bullet)
    ensures
        ({
            let c2 = strike_step(c, b);
            ||| (c2.enemies == c.enemies && c2.player == c.player)
            ||| (c2.player == c.player && exists|i: int|
                single_enemy_damaged(c.enemies, c2.enemies, i))
            ||| (c2.enemies == c.enemies && player_damaged(c.player, c2.player))
        }),
{
    let c2 = strike_step(c, b);
    match first_plane_hit(c.enemies, b) {
        Some(i) => {
            assert(single_enemy_damaged(c.enemies, c2.enemies, i)) by {
                lemma_first_plane_hit_in_range(c.enemies, b);
            }
        },
        None => {},
    }
}

/// The first hit index, when there is one, lies inside the sequence.
proof fn lemma_first_plane_hit_in_range(s: Seq<Plane>, b: Bullet)
    ensures
        first_plane_hit(s, b) matches Some(i) ==> 0 <= i < s.len(),
    decreases s.len(),
{
    if s.len() > 0 && !crate::combat::bullet_hits_plane(b, s[0]) {
        lemma_first_plane_hit_in_range(s.drop_first(), b);
    }
}

/// Idempotent wall hits: a projectile that overlaps no plane changes
/// no health, no score and no outcome, however often it is resolved;
/// if it overlaps a wall it is consumed and reports exactly one wall
/// hit.
pub proof fn lemma_wall_hits_are_harmless(c: CombatState, walls: Seq<Wall>, b: Bullet)
    requires
        first_plane_hit(c.enemies, b) is None,
        !hits_player(c, b),
    ensures
        strike_step(c, b) == c,
        hits_some_wall(walls, b) ==> bullet_consumed(c, walls, b) && strike_events(c, walls, b)
            == seq![HittingEvent::HitWall],
{
    match c.player {
        Some(p) => {
            assert(!crate::combat::bullet_hits_plane(b, p));
        },
        None => {},
    }
}

/// Laser charge lifecycle, spending side: firing consumes held-trigger
/// time from the `Once` duration timer; the moment the spent time
/// reaches the charge duration, the timer is finished.
pub proof fn lemma_laser_charge_spends(t: Timer, delta_ms: u32)
    requires
        t.wf(),
        t.mode is Once,
        !t.paused,
        !t.finished,
    ensures
        ({
            let t2 = t.tick_spec(delta_ms);
            &&& t2.finished <==> t.elapsed_ms + delta_ms >= t.duration_ms
            &&& t2.elapsed_ms == if t.elapsed_ms + delta_ms >= t.duration_ms {
                t.duration_ms as int
            } else {
                t.elapsed_ms + delta_ms
            }
        }),
{
}

/// Laser charge lifecycle, stopping side: once the duration timer is
/// finished, the laser cannot fire, with the trigger held or not.
pub proof fn lemma_laser_stops_when_spent(p: Plane, trigger_held: bool)
    requires
        p.laser.duration_timer matches Some(t) && t.finished,
    ensures
        !laser_fires(Some(p), trigger_held),
{
}

/// The wave controller's three states, as read off the world: the
/// spawn countdown is running (`Waiting`), the spawned wave is still
/// alive (`WaveActive`), or the wave is spent (`Exhausted`).
pub enum WaveState {
    Waiting,
    WaveActive,
    Exhausted,
}

pub open spec fn wave_state(w: World) -> WaveState {
    if !w.enemy_generate_timer.paused {
        WaveState::Waiting
    } else if w.enemies@.len() > 0 {
        WaveState::WaveActive
    } else {
        WaveState::Exhausted
    }
}

/// Wave advance: from the `Exhausted` state one resolution moves the
/// controller back to `Waiting` and increments the wave index exactly
/// once; when the spent wave was the level's last, the attempt ends —
/// completion on the final level, a win otherwise.
pub proof fn lemma_wave_advance(w: World)
    requires
        w.wf(),
        wave_state(w) is Exhausted,
        w.wave < WaveConfig::wave_len_spec(w.level as int),
    ensures
        ({
            let w2 = next_wave_spec(w);
            &&& w2.wave == w.wave + 1
            &&& wave_state(w2) is Waiting
            &&& (w.wave + 1 < WaveConfig::wave_len_spec(w.level as int) ==> w2.state == w.state)
            &&& (w.wave + 1 >= WaveConfig::wave_len_spec(w.level as int) ==> w2.state == (
            if w.level == 5 {
                GameState::Completion
            } else {
                GameState::Win
            }))
        }),
{
}

/// The wave index moves only through an advance: in the `Waiting` and
/// `WaveActive` states a resolution changes nothing.
pub proof fn lemma_wave_holds(w: World)
    requires
        !(wave_state(w) is Exhausted),
    ensures
        next_wave_spec(w) == w,
{
}

} // verus!
