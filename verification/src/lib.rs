//! Thunder: a fixed-step 2D arcade combat simulation.
//!
//! The library models the per-tick update loop of a wave-based
//! shoot-'em-up: countdown timers, weapon fire, projectile motion,
//! collision and damage resolution, enemy-wave progression, a timed
//! laser charge granted by pickups, and the win/lose state machine.
//!
//! All geometry is fixed-point: positions are measured in milli-units
//! (one thousandth of a world unit), velocities in milli-units per
//! millisecond, and time in milliseconds, so every computation is
//! exact integer arithmetic.

#![verifier::loop_isolation(false)]

pub mod combat;
pub mod config;
pub mod entities;
pub mod generator;
pub mod geom;
pub mod laser;
pub mod laws;
mod rng;
pub mod timer;
pub mod world;

use vstd::prelude::*;

verus! {

/// Greatest magnitude a coordinate may take, in milli-units.
/// Positions saturate here; the playing field is far smaller.
pub const POS_LIMIT: i64 = 0x4000_0000;

/// Greatest magnitude a velocity component may take,
/// in milli-units per millisecond.
pub const VEL_LIMIT: i64 = 0x10_0000;

/// Longest simulation step accepted by the tick functions,
/// in milliseconds.
pub const DT_LIMIT: u32 = 0x10_0000;

/// Greatest extent (width, height or diameter) of any collider,
/// in milli-units.
pub const SIZE_LIMIT: i64 = 1_000_000;

/// Greatest magnitude of a muzzle offset, in milli-units.
pub const OFFSET_LIMIT: i64 = 1_000_000;

/// Greatest magnitude of a heading-vector component as written in a
/// configuration table.
pub const DIR_LIMIT: i64 = 1_000_000;

/// Greatest magnitude of a resolved fixed-heading component: an
/// interpolated heading scales the configured one by at most a
/// thousand.
pub const FIX_LIMIT: i64 = 1_000_000_000;

/// Clamp `v` into `[-POS_LIMIT, POS_LIMIT]`.
pub open spec fn clamp_pos_spec(v: int) -> int {
    if v < -POS_LIMIT {
        -POS_LIMIT as int
    } else if v > POS_LIMIT {
        POS_LIMIT as int
    } else {
        v
    }
}

/// Clamp `v` into `[lo, hi]`.
pub open spec fn clamp_spec(v: int, lo: int, hi: int) -> int {
    if v < lo {
        lo
    } else if v > hi {
        hi
    } else {
        v
    }
}

/// Clamp a value into a closed interval.
pub fn clamp64(v: i64, lo: i64, hi: i64) -> (r: i64)
    requires
        lo <= hi,
    ensures
        r == clamp_spec(v as int, lo as int, hi as int),
        lo <= r <= hi,
{
    if v < lo {
        lo
    } else if v > hi {
        hi
    } else {
        v
    }
}

/// Clamp a coordinate into the world's coordinate range.
pub fn clamp_pos(v: i64) -> (r: i64)
    ensures
        r == clamp_pos_spec(v as int),
        -POS_LIMIT <= r <= POS_LIMIT,
{
    if v < -POS_LIMIT {
        -POS_LIMIT
    } else if v > POS_LIMIT {
        POS_LIMIT
    } else {
        v
    }
}

} // verus!
