//! Game constants and the per-level enemy configuration tables.
//!
//! The tables are static content, consumed read-only by the wave
//! controller: a lookup maps a `(level, wave)` pair to the group of
//! enemies that wave spawns. Distances are milli-units, speeds are
//! milli-units per millisecond, times are milliseconds.

use vstd::prelude::*;
use crate::geom::Vec2i;
use crate::entities::{in_pos_range, BulletDirection};
use crate::rng::sample_in_range;
use crate::{DIR_LIMIT, FIX_LIMIT, OFFSET_LIMIT, POS_LIMIT, SIZE_LIMIT, VEL_LIMIT};
use crate::timer::DURATION_LIMIT_MS;

verus! {

// Arena geometry.
pub const LEFT_WALL: i64 = -450_000;
pub const RIGHT_WALL: i64 = 450_000;
pub const BOTTOM_WALL: i64 = -300_000;
pub const TOP_WALL: i64 = 300_000;
pub const WALL_THICKNESS: i64 = 10_000;
pub const GAP_BETWEEN_PLANE_AND_WALL: i64 = 60_000;

// Planes.
pub const PLANE_SIZE: i64 = 30_000;
pub const PLANE_PADDING: i64 = 10_000;
pub const PLAYER_PLANE_SPEED: i64 = 300;
pub const PLAYER_PLANE_HP: u32 = 20;
pub const ENEMY_PLANE_HP: u32 = 10;

// Bullets.
pub const BULLET_RELATIVE_POSITION_X: i64 = 0;
pub const BULLET_RELATIVE_POSITION_Y: i64 = 50_000;
pub const BULLET_SHOOTING_INTERVAL_MS: u64 = 400;
pub const BULLET_DIAMETER: i64 = 20_000;
pub const USER_BULLET_SPEED: i64 = 500;
pub const DEFAULT_BULLET_SPEED: i64 = 300;
pub const HARM_BULLET: u32 = 1;

// The laser and its pickups.
pub const HARM_LASER: u32 = 2;
pub const LASER_DURATION_MS: u64 = 10_000;
pub const LASER_ATTACK_INTERVAL_MS: u64 = 100;
pub const LASER_STAR_VANISH_MS: u64 = 4_000;
pub const LASER_STAR_RADIUS: i64 = 20_000;
pub const LASER_RAY_WIDTH: i64 = 20_000;
pub const LASER_RAY_GAP: i64 = 8_000;

// Wave pacing.
pub const ENEMY_START_TIME_MS: u64 = 3_000;
pub const ENEMY_GEN_INTERVAL_MS: u64 = 3_000;

/// Where a spawned entity is placed: at a fixed point, or drawn from
/// an axis-aligned rectangle (each range is `(low, high)`, half-open).
#[derive(Clone, Copy, Debug)]
pub enum PositionConfig {
    Determinate(Vec2i),
    Random(Vec2i, Vec2i),
}

impl PositionConfig {
    pub open spec fn valid(self) -> bool {
        match self {
            PositionConfig::Determinate(p) => in_pos_range(p),
            PositionConfig::Random(xr, yr) => {
                &&& -POS_LIMIT <= xr.x < xr.y <= POS_LIMIT
                &&& -POS_LIMIT <= yr.x < yr.y <= POS_LIMIT
            },
        }
    }

    /// The positions this policy can produce.
    pub open spec fn admits(self, p: Vec2i) -> bool {
        match self {
            PositionConfig::Determinate(q) => p == q,
            PositionConfig::Random(xr, yr) => {
                &&& xr.x <= p.x < xr.y
                &&& yr.x <= p.y < yr.y
            },
        }
    }

    /// Resolve the policy to a concrete position; a `Random` policy
    /// draws from its rectangle.
    pub fn gen(self) -> (p: Vec2i)
        requires
            self.valid(),
        ensures
            self.admits(p),
            in_pos_range(p),
    {
        match self {
            PositionConfig::Determinate(p) => p,
            PositionConfig::Random(xr, yr) => Vec2i {
                x: sample_in_range(xr.x, xr.y),
                y: sample_in_range(yr.x, yr.y),
            },
        }
    }

    pub open spec fn default_spec() -> PositionConfig {
        PositionConfig::Random(
            Vec2i {
                x: (LEFT_WALL + GAP_BETWEEN_PLANE_AND_WALL) as i64,
                y: (RIGHT_WALL - GAP_BETWEEN_PLANE_AND_WALL) as i64,
            },
            Vec2i {
                x: ((TOP_WALL * 3 + BOTTOM_WALL) / 4) as i64,
                y: (TOP_WALL - GAP_BETWEEN_PLANE_AND_WALL) as i64,
            },
        )
    }
}

impl Default for PositionConfig {
    /// The upper strip of the arena, a plane's gap away from the
    /// walls.
    fn default() -> (p: PositionConfig)
        ensures
            p == PositionConfig::default_spec(),
            p.valid(),
    {
        PositionConfig::Random(
            Vec2i { x: LEFT_WALL + GAP_BETWEEN_PLANE_AND_WALL, y: RIGHT_WALL - GAP_BETWEEN_PLANE_AND_WALL },
            Vec2i { x: (TOP_WALL * 3 + BOTTOM_WALL) / 4, y: TOP_WALL - GAP_BETWEEN_PLANE_AND_WALL },
        )
    }
}

/// Linear interpolation between two heading vectors, in thousandths:
/// the chord between the two headings.
pub open spec fn lerp_heading(a: Vec2i, b: Vec2i, s: int) -> (int, int) {
    (a.x * (1000 - s) + b.x * s, a.y * (1000 - s) + b.y * s)
}

/// How a spawned gun aims: a fixed heading, a heading drawn once at
/// spawn time from the chord between two boundary headings, or a
/// trace of the player resolved at every shot.
#[derive(Clone, Copy, Debug)]
pub enum BulletDirectionConfig {
    Determinate(Vec2i),
    Random(Vec2i, Vec2i),
    Trace,
}

impl BulletDirectionConfig {
    pub open spec fn valid(self) -> bool {
        match self {
            BulletDirectionConfig::Determinate(v) => {
                &&& -DIR_LIMIT <= v.x <= DIR_LIMIT
                &&& -DIR_LIMIT <= v.y <= DIR_LIMIT
            },
            BulletDirectionConfig::Random(a, b) => {
                &&& -DIR_LIMIT <= a.x <= DIR_LIMIT
                &&& -DIR_LIMIT <= a.y <= DIR_LIMIT
                &&& -DIR_LIMIT <= b.x <= DIR_LIMIT
                &&& -DIR_LIMIT <= b.y <= DIR_LIMIT
            },
            BulletDirectionConfig::Trace => true,
        }
    }

    /// The headings the policy can resolve to.
    pub open spec fn resolves_to(self, d: BulletDirection) -> bool {
        match self {
            BulletDirectionConfig::Determinate(v) => d == BulletDirection::Fix(v),
            BulletDirectionConfig::Random(a, b) => (d matches BulletDirection::Fix(v)
                && exists|s: int|
                0 <= s <= 1000 && (v.x as int, v.y as int) == lerp_heading(a, b, s)),
            BulletDirectionConfig::Trace => d == BulletDirection::Trace,
        }
    }

    /// Resolve the policy once, at spawn time: a `Random` arc becomes
    /// a fixed heading; `Trace` stays unresolved until each shot.
    pub fn gen(self) -> (d: BulletDirection)
        requires
            self.valid(),
        ensures
            d.valid(),
            self.resolves_to(d),
    {
        match self {
            BulletDirectionConfig::Determinate(v) => BulletDirection::Fix(v),
            BulletDirectionConfig::Random(a, b) => {
                let s: i64 = sample_in_range(0, 1001);
                let t: i64 = 1000 - s;
                proof {
                    assert(-FIX_LIMIT <= a.x * t + b.x * s <= FIX_LIMIT && -FIX_LIMIT <= a.y * t
                        + b.y * s <= FIX_LIMIT && -FIX_LIMIT <= a.x * t <= FIX_LIMIT && -FIX_LIMIT
                        <= b.x * s <= FIX_LIMIT && -FIX_LIMIT <= a.y * t <= FIX_LIMIT && -FIX_LIMIT
                        <= b.y * s <= FIX_LIMIT) by (nonlinear_arith)
                        requires
                            -DIR_LIMIT <= a.x <= DIR_LIMIT,
                            -DIR_LIMIT <= a.y <= DIR_LIMIT,
                            -DIR_LIMIT <= b.x <= DIR_LIMIT,
                            -DIR_LIMIT <= b.y <= DIR_LIMIT,
                            0 <= s <= 1000,
                            t == 1000 - s,
                    ;
                }
                let dx: i64 = a.x * t + b.x * s;
                let dy: i64 = a.y * t + b.y * s;
                let d = BulletDirection::Fix(Vec2i { x: dx, y: dy });
                proof {
                    assert((dx as int, dy as int) == lerp_heading(a, b, s as int));
                }
                d
            },
            BulletDirectionConfig::Trace => BulletDirection::Trace,
        }
    }

    pub open spec fn default_spec() -> BulletDirectionConfig {
        BulletDirectionConfig::Random(
            Vec2i { x: (-1000) as i64, y: (-1000) as i64 },
            Vec2i { x: 1000, y: (-1000) as i64 },
        )
    }
}

impl Default for BulletDirectionConfig {
    /// The downward fan: headings between down-left and down-right.
    fn default() -> (d: BulletDirectionConfig)
        ensures
            d == BulletDirectionConfig::default_spec(),
            d.valid(),
    {
        BulletDirectionConfig::Random(Vec2i { x: -1000, y: -1000 }, Vec2i { x: 1000, y: -1000 })
    }
}

/// Everything a wave entry says about one enemy to spawn.
#[derive(Clone, Copy, Debug)]
pub struct EnemyConfig {
    pub position: PositionConfig,
    pub scale: Vec2i,
    pub hp: u32,
    pub bullet_relative_position: Vec2i,
    pub bullet_speed: i64,
    pub bullet_direction: BulletDirectionConfig,
    pub bullet_diameter: i64,
    pub shooting_interval: u64,
}

impl EnemyConfig {
    pub open spec fn valid(self) -> bool {
        &&& self.position.valid()
        &&& 0 < self.scale.x <= SIZE_LIMIT
        &&& 0 < self.scale.y <= SIZE_LIMIT
        &&& self.hp >= 1
        &&& -OFFSET_LIMIT <= self.bullet_relative_position.x <= OFFSET_LIMIT
        &&& -OFFSET_LIMIT <= self.bullet_relative_position.y <= OFFSET_LIMIT
        &&& 0 <= self.bullet_speed <= VEL_LIMIT
        &&& self.bullet_direction.valid()
        &&& 0 <= self.bullet_diameter <= SIZE_LIMIT
        &&& self.shooting_interval <= DURATION_LIMIT_MS
    }

    pub open spec fn default_spec() -> EnemyConfig {
        EnemyConfig {
            position: PositionConfig::default_spec(),
            scale: Vec2i { x: PLANE_SIZE, y: PLANE_SIZE },
            hp: ENEMY_PLANE_HP,
            bullet_relative_position: Vec2i {
                x: (-BULLET_RELATIVE_POSITION_X) as i64,
                y: (-BULLET_RELATIVE_POSITION_Y) as i64,
            },
            bullet_speed: DEFAULT_BULLET_SPEED,
            bullet_direction: BulletDirectionConfig::default_spec(),
            bullet_diameter: BULLET_DIAMETER,
            shooting_interval: BULLET_SHOOTING_INTERVAL_MS,
        }
    }
}

impl Default for EnemyConfig {
    fn default() -> (c: EnemyConfig)
        ensures
            c == EnemyConfig::default_spec(),
            c.valid(),
    {
        EnemyConfig {
            position: PositionConfig::default(),
            scale: Vec2i { x: PLANE_SIZE, y: PLANE_SIZE },
            hp: ENEMY_PLANE_HP,
            bullet_relative_position: Vec2i {
                x: -BULLET_RELATIVE_POSITION_X,
                y: -BULLET_RELATIVE_POSITION_Y,
            },
            bullet_speed: DEFAULT_BULLET_SPEED,
            bullet_direction: BulletDirectionConfig::default(),
            bullet_diameter: BULLET_DIAMETER,
            shooting_interval: BULLET_SHOOTING_INTERVAL_MS,
        }
    }
}

/// One wave's worth of enemies: one entry repeated, or a list of
/// entries.
#[derive(Clone, Debug)]
pub enum WaveConfig {
    Duplicate(EnemyConfig, u32),
    Detailed(Vec<EnemyConfig>),
}

impl WaveConfig {
    /// The entries of the wave, in spawn order; a `Duplicate` wave is
    /// its one entry repeated.
    pub open spec fn entries(self) -> Seq<EnemyConfig> {
        match self {
            WaveConfig::Duplicate(c, n) => Seq::new(n as nat, |i: int| c),
            WaveConfig::Detailed(v) => v@,
        }
    }

    /// How many enemies the wave spawns.
    pub open spec fn size(self) -> int {
        match self {
            WaveConfig::Duplicate(_, n) => n as int,
            WaveConfig::Detailed(v) => v@.len() as int,
        }
    }

    pub open spec fn valid(self) -> bool {
        match self {
            WaveConfig::Duplicate(c, n) => c.valid() && 1 <= n,
            WaveConfig::Detailed(v) => v@.len() >= 1 && forall|i: int|
                0 <= i < v@.len() ==> #[trigger] v@[i].valid(),
        }
    }

    /// How many waves the given level consists of.
    pub open spec fn wave_len_spec(level: int) -> int {
        if level <= 2 {
            4
        } else if level <= 4 {
            5
        } else {
            6
        }
    }

    pub fn get_wave_len(level: u32) -> (n: u32)
        requires
            1 <= level <= 5,
        ensures
            n == Self::wave_len_spec(level as int),
    {
        match level {
            1 => 4,
            2 => 4,
            3 => 5,
            4 => 5,
            _ => 6,
        }
    }
}

/// Append one entry to a wave under construction, keeping every entry
/// valid.
fn push_cfg(v: &mut Vec<EnemyConfig>, c: EnemyConfig)
    requires
        c.valid(),
        forall|i: int| 0 <= i < old(v)@.len() ==> #[trigger] old(v)@[i].valid(),
    ensures
        final(v)@ == old(v)@.push(c),
        forall|i: int| 0 <= i < final(v)@.len() ==> #[trigger] final(v)@[i].valid(),
{
    v.push(c);
}


/// How many enemies the `(level, wave)` table entry spawns.
pub open spec fn wave_size_spec(level: int, wave: int) -> int {
    if level == 1 { if wave == 0 { 2 } else if wave == 1 { 1 } else if wave == 2 { 1 } else { 2 } }
    else if level == 2 { if wave == 0 { 1 } else if wave == 1 { 2 } else if wave == 2 { 3 } else { 5 } }
    else if level == 3 { if wave == 0 { 3 } else if wave == 1 { 2 } else if wave == 2 { 3 } else if wave == 3 { 2 } else { 11 } }
    else if level == 4 { if wave == 0 { 2 } else if wave == 1 { 3 } else if wave == 2 { 5 } else if wave == 3 { 10 } else { 1 } }
    else { if wave == 0 { 2 } else if wave == 1 { 5 } else if wave == 2 { 4 } else if wave == 3 { 2 } else if wave == 4 { 1 } else { 10 } }
}

impl WaveConfig {
    /// Look the `(level, wave)` pair up in the static content table.
    /// The pair must exist: a missing entry is a content-authoring
    /// error, which the precondition rules out. Two lookups of the
    /// same pair return the same entries: exactly those of
    /// `wave_table_spec`.
    #[verifier::rlimit(100)]
    pub fn get(level: u32, wave: u32) -> (c: WaveConfig)
        requires
            1 <= level <= 5,
            wave < Self::wave_len_spec(level as int),
        ensures
            c.valid(),
            c.entries() == wave_table_spec(level as int, wave as int),
            c.size() == wave_size_spec(level as int, wave as int),
    {
        match (level, wave) {
            (1, 0) => {
                let mut v: Vec<EnemyConfig> = Vec::new();
                push_cfg(&mut v, EnemyConfig { position: PositionConfig::Determinate(Vec2i { x: 225_000, y: 150_000 }), bullet_direction: BulletDirectionConfig::Determinate(Vec2i { x: 0, y: -1000 }), hp: 10, bullet_speed: 150, shooting_interval: 2000, ..EnemyConfig::default() });
                push_cfg(&mut v, EnemyConfig { position: PositionConfig::Determinate(Vec2i { x: -225_000, y: 150_000 }), bullet_direction: BulletDirectionConfig::Determinate(Vec2i { x: 0, y: -1000 }), hp: 10, bullet_speed: 150, shooting_interval: 2000, ..EnemyConfig::default() });
                proof {
                    assert(v@ =~= wave_table_spec(1, 0));
                }
                WaveConfig::Detailed(v)
            },
            (1, 1) => {
                let c = WaveConfig::Duplicate(
                    EnemyConfig { position: PositionConfig::Determinate(Vec2i { x: 0, y: 150_000 }), bullet_direction: BulletDirectionConfig::Determinate(Vec2i { x: 0, y: -1000 }), hp: 80, bullet_speed: 200, shooting_interval: 1300, ..EnemyConfig::default() },
                    1,
                );
                proof {
                    assert(c.entries() =~= wave_table_spec(1, 1));
                }
                c
            },
            (1, 2) => {
                let c = WaveConfig::Duplicate(
                    EnemyConfig { bullet_direction: BulletDirectionConfig::Trace, hp: 30, bullet_speed: 200, shooting_interval: 1000, ..EnemyConfig::default() },
                    1,
                );
                proof {
                    assert(c.entries() =~= wave_table_spec(1, 2));
                }
                c
            },
            (1, 3) => {
                let c = WaveConfig::Duplicate(
                    EnemyConfig { bullet_direction: BulletDirectionConfig::Trace, hp: 40, bullet_speed: 240, shooting_interval: 1000, ..EnemyConfig::default() },
                    2,
                );
                proof {
                    assert(c.entries() =~= wave_table_spec(1, 3));
                }
                c
            },
            (2, 0) => {
                let c = WaveConfig::Duplicate(
                    EnemyConfig { bullet_direction: BulletDirectionConfig::Determinate(Vec2i { x: 0, y: -1000 }), hp: 100, bullet_speed: 250, shooting_interval: 1000, ..EnemyConfig::default() },
                    1,
                );
                proof {
                    assert(c.entries() =~= wave_table_spec(2, 0));
                }
                c
            },
            (2, 1) => {
                let mut v: Vec<EnemyConfig> = Vec::new();
                push_cfg(&mut v, EnemyConfig { position: PositionConfig::Random(Vec2i { x: -360_000, y: -90_000 }, Vec2i { x: 60_000, y: 240_000 }), bullet_direction: BulletDirectionConfig::Trace, hp: 100, bullet_speed: 300, shooting_interval: 1000, ..EnemyConfig::default() });
                push_cfg(&mut v, EnemyConfig { position: PositionConfig::Random(Vec2i { x: 90_000, y: 360_000 }, Vec2i { x: 60_000, y: 240_000 }), bullet_direction: BulletDirectionConfig::Trace, hp: 100, bullet_speed: 300, shooting_interval: 1000, ..EnemyConfig::default() });
                proof {
                    assert(v@ =~= wave_table_spec(2, 1));
                }
                WaveConfig::Detailed(v)
            },
            (2, 2) => {
                let mut v: Vec<EnemyConfig> = Vec::new();
                push_cfg(&mut v, EnemyConfig { position: PositionConfig::Random(Vec2i { x: -360_000, y: -180_000 }, Vec2i { x: 120_000, y: 240_000 }), bullet_direction: BulletDirectionConfig::Trace, hp: 80, bullet_speed: 300, shooting_interval: 1400, ..EnemyConfig::default() });
                push_cfg(&mut v, EnemyConfig { position: PositionConfig::Random(Vec2i { x: -90_000, y: 90_000 }, Vec2i { x: 120_000, y: 240_000 }), bullet_direction: BulletDirectionConfig::Determinate(Vec2i { x: 0, y: -1000 }), hp: 120, bullet_speed: 300, shooting_interval: 800, ..EnemyConfig::default() });
                push_cfg(&mut v, EnemyConfig { position: PositionConfig::Random(Vec2i { x: 180_000, y: 360_000 }, Vec2i { x: 120_000, y: 240_000 }), bullet_direction: BulletDirectionConfig::Trace, hp: 80, bullet_speed: 300, shooting_interval: 1400, ..EnemyConfig::default() });
                proof {
                    assert(v@ =~= wave_table_spec(2, 2));
                }
                WaveConfig::Detailed(v)
            },
            (2, 3) => {
                let mut v: Vec<EnemyConfig> = Vec::new();
                push_cfg(&mut v, EnemyConfig { position: PositionConfig::Random(Vec2i { x: -427_500, y: -292_500 }, Vec2i { x: 120_000, y: 240_000 }), bullet_direction: BulletDirectionConfig::Trace, hp: 40, shooting_interval: 1200, ..EnemyConfig::default() });
                push_cfg(&mut v, EnemyConfig { position: PositionConfig::Random(Vec2i { x: -247_500, y: -135_000 }, Vec2i { x: 120_000, y: 240_000 }), bullet_direction: BulletDirectionConfig::Trace, hp: 80, shooting_interval: 1200, ..EnemyConfig::default() });
                push_cfg(&mut v, EnemyConfig { position: PositionConfig::Random(Vec2i { x: -90_000, y: 90_000 }, Vec2i { x: 120_000, y: 240_000 }), bullet_direction: BulletDirectionConfig::Determinate(Vec2i { x: 0, y: -1000 }), hp: 120, shooting_interval: 800, ..EnemyConfig::default() });
                push_cfg(&mut v, EnemyConfig { position: PositionConfig::Random(Vec2i { x: 135_000, y: 247_500 }, Vec2i { x: 120_000, y: 240_000 }), bullet_direction: BulletDirectionConfig::Trace, hp: 80, shooting_interval: 1200, ..EnemyConfig::default() });
                push_cfg(&mut v, EnemyConfig { position: PositionConfig::Random(Vec2i { x: 292_500, y: 427_500 }, Vec2i { x: 120_000, y: 240_000 }), bullet_direction: BulletDirectionConfig::Trace, hp: 40, shooting_interval: 1200, ..EnemyConfig::default() });
                proof {
                    assert(v@ =~= wave_table_spec(2, 3));
                }
                WaveConfig::Detailed(v)
            },
            (3, 0) => {
                let mut v: Vec<EnemyConfig> = Vec::new();
                push_cfg(&mut v, EnemyConfig { position: PositionConfig::Random(Vec2i { x: -360_000, y: -180_000 }, Vec2i { x: 60_000, y: 240_000 }), bullet_direction: BulletDirectionConfig::Determinate(Vec2i { x: 0, y: -1000 }), hp: 100, ..EnemyConfig::default() });
                push_cfg(&mut v, EnemyConfig { position: PositionConfig::Random(Vec2i { x: -90_000, y: 90_000 }, Vec2i { x: 60_000, y: 240_000 }), bullet_direction: BulletDirectionConfig::Determinate(Vec2i { x: 0, y: -1000 }), hp: 100, ..EnemyConfig::default() });
                push_cfg(&mut v, EnemyConfig { position: PositionConfig::Random(Vec2i { x: 180_000, y: 360_000 }, Vec2i { x: 60_000, y: 240_000 }), bullet_direction: BulletDirectionConfig::Determinate(Vec2i { x: 0, y: -1000 }), hp: 100, ..EnemyConfig::default() });
                proof {
                    assert(v@ =~= wave_table_spec(3, 0));
                }
                WaveConfig::Detailed(v)
            },
            (3, 1) => {
                let mut v: Vec<EnemyConfig> = Vec::new();
                push_cfg(&mut v, EnemyConfig { position: PositionConfig::Random(Vec2i { x: -360_000, y: -90_000 }, Vec2i { x: 60_000, y: 240_000 }), bullet_direction: BulletDirectionConfig::Trace, hp: 100, ..EnemyConfig::default() });
                push_cfg(&mut v, EnemyConfig { position: PositionConfig::Random(Vec2i { x: 90_000, y: 360_000 }, Vec2i { x: 60_000, y: 240_000 }), bullet_direction: BulletDirectionConfig::Trace, hp: 100, ..EnemyConfig::default() });
                proof {
                    assert(v@ =~= wave_table_spec(3, 1));
                }
                WaveConfig::Detailed(v)
            },
            (3, 2) => {
                let mut v: Vec<EnemyConfig> = Vec::new();
                push_cfg(&mut v, EnemyConfig { position: PositionConfig::Random(Vec2i { x: -360_000, y: -180_000 }, Vec2i { x: 60_000, y: 240_000 }), bullet_direction: BulletDirectionConfig::Trace, hp: 80, ..EnemyConfig::default() });
                push_cfg(&mut v, EnemyConfig { position: PositionConfig::Random(Vec2i { x: -90_000, y: 90_000 }, Vec2i { x: 60_000, y: 240_000 }), bullet_direction: BulletDirectionConfig::Trace, hp: 80, ..EnemyConfig::default() });
                push_cfg(&mut v, EnemyConfig { position: PositionConfig::Random(Vec2i { x: 180_000, y: 360_000 }, Vec2i { x: 60_000, y: 240_000 }), bullet_direction: BulletDirectionConfig::Trace, hp: 80, ..EnemyConfig::default() });
                proof {
                    assert(v@ =~= wave_table_spec(3, 2));
                }
                WaveConfig::Detailed(v)
            },
            (3, 3) => {
                let mut v: Vec<EnemyConfig> = Vec::new();
                push_cfg(&mut v, EnemyConfig { position: PositionConfig::Random(Vec2i { x: -360_000, y: -90_000 }, Vec2i { x: 60_000, y: 240_000 }), bullet_direction: BulletDirectionConfig::Trace, hp: 80, bullet_speed: 400, shooting_interval: 400, ..EnemyConfig::default() });
                push_cfg(&mut v, EnemyConfig { position: PositionConfig::Random(Vec2i { x: 90_000, y: 360_000 }, Vec2i { x: 60_000, y: 240_000 }), bullet_direction: BulletDirectionConfig::Trace, hp: 80, bullet_speed: 400, shooting_interval: 400, ..EnemyConfig::default() });
                proof {
                    assert(v@ =~= wave_table_spec(3, 3));
                }
                WaveConfig::Detailed(v)
            },
            (3, 4) => {
                let mut v: Vec<EnemyConfig> = Vec::new();
                push_cfg(&mut v, EnemyConfig { position: PositionConfig::Determinate(Vec2i { x: 405_000, y: 0 }), bullet_direction: BulletDirectionConfig::Trace, hp: 20, bullet_speed: 100, shooting_interval: 400, ..EnemyConfig::default() });
                push_cfg(&mut v, EnemyConfig { position: PositionConfig::Determinate(Vec2i { x: 324_000, y: 120_000 }), bullet_direction: BulletDirectionConfig::Trace, hp: 40, bullet_speed: 150, shooting_interval: 600, ..EnemyConfig::default() });
                push_cfg(&mut v, EnemyConfig { position: PositionConfig::Determinate(Vec2i { x: 243_000, y: 180_000 }), bullet_direction: BulletDirectionConfig::Trace, hp: 80, bullet_speed: 200, shooting_interval: 800, ..EnemyConfig::default() });
                push_cfg(&mut v, EnemyConfig { position: PositionConfig::Determinate(Vec2i { x: 171_000, y: 225_000 }), bullet_direction: BulletDirectionConfig::Trace, hp: 120, bullet_speed: 300, shooting_interval: 900, ..EnemyConfig::default() });
                push_cfg(&mut v, EnemyConfig { position: PositionConfig::Determinate(Vec2i { x: 81_000, y: 255_000 }), bullet_direction: BulletDirectionConfig::Trace, hp: 160, bullet_speed: 350, shooting_interval: 1000, ..EnemyConfig::default() });
                push_cfg(&mut v, EnemyConfig { position: PositionConfig::Determinate(Vec2i { x: 0, y: 270_000 }), bullet_direction: BulletDirectionConfig::Determinate(Vec2i { x: 0, y: -1000 }), hp: 200, bullet_speed: 400, shooting_interval: 400, ..EnemyConfig::default() });
                push_cfg(&mut v, EnemyConfig { position: PositionConfig::Determinate(Vec2i { x: -81_000, y: 255_000 }), bullet_direction: BulletDirectionConfig::Trace, hp: 160, bullet_speed: 350, shooting_interval: 1000, ..EnemyConfig::default() });
                push_cfg(&mut v, EnemyConfig { position: PositionConfig::Determinate(Vec2i { x: -162_000, y: 225_000 }), bullet_direction: BulletDirectionConfig::Trace, hp: 120, bullet_speed: 300, shooting_interval: 900, ..EnemyConfig::default() });
                push_cfg(&mut v, EnemyConfig { position: PositionConfig::Determinate(Vec2i { x: -243_000, y: 180_000 }), bullet_direction: BulletDirectionConfig::Trace, hp: 80, bullet_speed: 200, shooting_interval: 800, ..EnemyConfig::default() });
                push_cfg(&mut v, EnemyConfig { position: PositionConfig::Determinate(Vec2i { x: -324_000, y: 120_000 }), bullet_direction: BulletDirectionConfig::Trace, hp: 40, bullet_speed: 150, shooting_interval: 600, ..EnemyConfig::default() });
                push_cfg(&mut v, EnemyConfig { position: PositionConfig::Determinate(Vec2i { x: -405_000, y: 0 }), bullet_direction: BulletDirectionConfig::Trace, hp: 20, bullet_speed: 100, shooting_interval: 400, ..EnemyConfig::default() });
                proof {
                    assert(v@ =~= wave_table_spec(3, 4));
                }
                WaveConfig::Detailed(v)
            },
            (4, 0) => {
                let mut v: Vec<EnemyConfig> = Vec::new();
                push_cfg(&mut v, EnemyConfig { position: PositionConfig::Random(Vec2i { x: -360_000, y: -90_000 }, Vec2i { x: 60_000, y: 240_000 }), bullet_direction: BulletDirectionConfig::Trace, hp: 100, bullet_speed: 500, shooting_interval: 400, ..EnemyConfig::default() });
                push_cfg(&mut v, EnemyConfig { position: PositionConfig::Random(Vec2i { x: 90_000, y: 360_000 }, Vec2i { x: 60_000, y: 240_000 }), bullet_direction: BulletDirectionConfig::Trace, hp: 100, bullet_speed: 500, shooting_interval: 400, ..EnemyConfig::default() });
                proof {
                    assert(v@ =~= wave_table_spec(4, 0));
                }
                WaveConfig::Detailed(v)
            },
            (4, 1) => {
                let mut v: Vec<EnemyConfig> = Vec::new();
                push_cfg(&mut v, EnemyConfig { position: PositionConfig::Random(Vec2i { x: -360_000, y: -180_000 }, Vec2i { x: 60_000, y: 240_000 }), bullet_direction: BulletDirectionConfig::Trace, hp: 100, bullet_speed: 400, shooting_interval: 400, ..EnemyConfig::default() });
                push_cfg(&mut v, EnemyConfig { position: PositionConfig::Random(Vec2i { x: -90_000, y: 90_000 }, Vec2i { x: 60_000, y: 240_000 }), bullet_direction: BulletDirectionConfig::Trace, hp: 150, bullet_speed: 500, shooting_interval: 600, ..EnemyConfig::default() });
                push_cfg(&mut v, EnemyConfig { position: PositionConfig::Random(Vec2i { x: 180_000, y: 360_000 }, Vec2i { x: 60_000, y: 240_000 }), bullet_direction: BulletDirectionConfig::Trace, hp: 100, bullet_speed: 400, shooting_interval: 400, ..EnemyConfig::default() });
                proof {
                    assert(v@ =~= wave_table_spec(4, 1));
                }
                WaveConfig::Detailed(v)
            },
            (4, 2) => {
                let mut v: Vec<EnemyConfig> = Vec::new();
                push_cfg(&mut v, EnemyConfig { position: PositionConfig::Random(Vec2i { x: -405_000, y: -315_000 }, Vec2i { x: 60_000, y: 240_000 }), bullet_direction: BulletDirectionConfig::Trace, hp: 80, bullet_speed: 400, shooting_interval: 400, ..EnemyConfig::default() });
                push_cfg(&mut v, EnemyConfig { position: PositionConfig::Random(Vec2i { x: -270_000, y: -180_000 }, Vec2i { x: 60_000, y: 240_000 }), bullet_direction: BulletDirectionConfig::Trace, hp: 120, bullet_speed: 400, shooting_interval: 400, ..EnemyConfig::default() });
                push_cfg(&mut v, EnemyConfig { position: PositionConfig::Random(Vec2i { x: -90_000, y: 90_000 }, Vec2i { x: 60_000, y: 240_000 }), bullet_direction: BulletDirectionConfig::Trace, hp: 120, bullet_speed: 400, shooting_interval: 400, ..EnemyConfig::default() });
                push_cfg(&mut v, EnemyConfig { position: PositionConfig::Random(Vec2i { x: 180_000, y: 270_000 }, Vec2i { x: 60_000, y: 240_000 }), bullet_direction: BulletDirectionConfig::Trace, hp: 120, bullet_speed: 400, shooting_interval: 400, ..EnemyConfig::default() });
                push_cfg(&mut v, EnemyConfig { position: PositionConfig::Random(Vec2i { x: 315_000, y: 405_000 }, Vec2i { x: 60_000, y: 240_000 }), bullet_direction: BulletDirectionConfig::Trace, hp: 120, bullet_speed: 400, shooting_interval: 400, ..EnemyConfig::default() });
                proof {
                    assert(v@ =~= wave_table_spec(4, 2));
                }
                WaveConfig::Detailed(v)
            },
            (4, 3) => {
                let mut v: Vec<EnemyConfig> = Vec::new();
                push_cfg(&mut v, EnemyConfig { position: PositionConfig::Random(Vec2i { x: 360_000, y: 405_000 }, Vec2i { x: 150_000, y: 240_000 }), bullet_direction: BulletDirectionConfig::Determinate(Vec2i { x: 0, y: -1000 }), hp: 120, bullet_speed: 500, shooting_interval: 300, ..EnemyConfig::default() });
                push_cfg(&mut v, EnemyConfig { position: PositionConfig::Random(Vec2i { x: 270_000, y: 315_000 }, Vec2i { x: 150_000, y: 240_000 }), bullet_direction: BulletDirectionConfig::Determinate(Vec2i { x: 0, y: -1000 }), hp: 120, bullet_speed: 500, shooting_interval: 300, ..EnemyConfig::default() });
                push_cfg(&mut v, EnemyConfig { position: PositionConfig::Random(Vec2i { x: 180_000, y: 225_000 }, Vec2i { x: 150_000, y: 240_000 }), bullet_direction: BulletDirectionConfig::Determinate(Vec2i { x: 0, y: -1000 }), hp: 120, bullet_speed: 500, shooting_interval: 300, ..EnemyConfig::default() });
                push_cfg(&mut v, EnemyConfig { position: PositionConfig::Random(Vec2i { x: 90_000, y: 135_000 }, Vec2i { x: 150_000, y: 240_000 }), bullet_direction: BulletDirectionConfig::Determinate(Vec2i { x: 0, y: -1000 }), hp: 120, bullet_speed: 500, shooting_interval: 300, ..EnemyConfig::default() });
                push_cfg(&mut v, EnemyConfig { position: PositionConfig::Random(Vec2i { x: 0, y: 45_000 }, Vec2i { x: 150_000, y: 240_000 }), bullet_direction: BulletDirectionConfig::Determinate(Vec2i { x: 0, y: -1000 }), hp: 120, bullet_speed: 500, shooting_interval: 300, ..EnemyConfig::default() });
                push_cfg(&mut v, EnemyConfig { position: PositionConfig::Random(Vec2i { x: -45_000, y: 0 }, Vec2i { x: 150_000, y: 240_000 }), bullet_direction: BulletDirectionConfig::Determinate(Vec2i { x: 0, y: -1000 }), hp: 120, bullet_speed: 500, shooting_interval: 300, ..EnemyConfig::default() });
                push_cfg(&mut v, EnemyConfig { position: PositionConfig::Random(Vec2i { x: -135_000, y: -90_000 }, Vec2i { x: 150_000, y: 240_000 }), bullet_direction: BulletDirectionConfig::Determinate(Vec2i { x: 0, y: -1000 }), hp: 120, bullet_speed: 500, shooting_interval: 300, ..EnemyConfig::default() });
                push_cfg(&mut v, EnemyConfig { position: PositionConfig::Random(Vec2i { x: -225_000, y: -180_000 }, Vec2i { x: 150_000, y: 240_000 }), bullet_direction: BulletDirectionConfig::Determinate(Vec2i { x: 0, y: -1000 }), hp: 120, bullet_speed: 500, shooting_interval: 300, ..EnemyConfig::default() });
                push_cfg(&mut v, EnemyConfig { position: PositionConfig::Random(Vec2i { x: -315_000, y: -270_000 }, Vec2i { x: 150_000, y: 240_000 }), bullet_direction: BulletDirectionConfig::Determinate(Vec2i { x: 0, y: -1000 }), hp: 120, bullet_speed: 500, shooting_interval: 300, ..EnemyConfig::default() });
                push_cfg(&mut v, EnemyConfig { position: PositionConfig::Random(Vec2i { x: -405_000, y: -360_000 }, Vec2i { x: 150_000, y: 240_000 }), bullet_direction: BulletDirectionConfig::Determinate(Vec2i { x: 0, y: -1000 }), hp: 120, bullet_speed: 500, shooting_interval: 300, ..EnemyConfig::default() });
                proof {
                    assert(v@ =~= wave_table_spec(4, 3));
                }
                WaveConfig::Detailed(v)
            },
            (4, 4) => {
                let c = WaveConfig::Duplicate(
                    EnemyConfig { position: PositionConfig::Random(Vec2i { x: -45_000, y: 45_000 }, Vec2i { x: 210_000, y: 240_000 }), bullet_direction: BulletDirectionConfig::Trace, hp: 1500, bullet_speed: 400, shooting_interval: 400, ..EnemyConfig::default() },
                    1,
                );
                proof {
                    assert(c.entries() =~= wave_table_spec(4, 4));
                }
                c
            },
            (5, 0) => {
                let mut v: Vec<EnemyConfig> = Vec::new();
                push_cfg(&mut v, EnemyConfig { position: PositionConfig::Random(Vec2i { x: -360_000, y: -90_000 }, Vec2i { x: 60_000, y: 240_000 }), bullet_direction: BulletDirectionConfig::Trace, hp: 150, bullet_speed: 666, shooting_interval: 350, ..EnemyConfig::default() });
                push_cfg(&mut v, EnemyConfig { position: PositionConfig::Random(Vec2i { x: 90_000, y: 360_000 }, Vec2i { x: 60_000, y: 240_000 }), bullet_direction: BulletDirectionConfig::Trace, hp: 150, bullet_speed: 666, shooting_interval: 350, ..EnemyConfig::default() });
                proof {
                    assert(v@ =~= wave_table_spec(5, 0));
                }
                WaveConfig::Detailed(v)
            },
            (5, 1) => {
                let mut v: Vec<EnemyConfig> = Vec::new();
                push_cfg(&mut v, EnemyConfig { position: PositionConfig::Random(Vec2i { x: -405_000, y: -315_000 }, Vec2i { x: 60_000, y: 240_000 }), bullet_direction: BulletDirectionConfig::Trace, hp: 80, bullet_speed: 400, shooting_interval: 400, ..EnemyConfig::default() });
                push_cfg(&mut v, EnemyConfig { position: PositionConfig::Random(Vec2i { x: -270_000, y: -180_000 }, Vec2i { x: 60_000, y: 240_000 }), bullet_direction: BulletDirectionConfig::Trace, hp: 120, bullet_speed: 400, shooting_interval: 400, ..EnemyConfig::default() });
                push_cfg(&mut v, EnemyConfig { position: PositionConfig::Random(Vec2i { x: -90_000, y: 90_000 }, Vec2i { x: 60_000, y: 240_000 }), bullet_direction: BulletDirectionConfig::Trace, hp: 150, bullet_speed: 500, shooting_interval: 350, ..EnemyConfig::default() });
                push_cfg(&mut v, EnemyConfig { position: PositionConfig::Random(Vec2i { x: 180_000, y: 270_000 }, Vec2i { x: 60_000, y: 240_000 }), bullet_direction: BulletDirectionConfig::Trace, hp: 150, bullet_speed: 500, shooting_interval: 350, ..EnemyConfig::default() });
                push_cfg(&mut v, EnemyConfig { position: PositionConfig::Random(Vec2i { x: 315_000, y: 405_000 }, Vec2i { x: 60_000, y: 240_000 }), bullet_direction: BulletDirectionConfig::Trace, hp: 150, bullet_speed: 500, shooting_interval: 350, ..EnemyConfig::default() });
                proof {
                    assert(v@ =~= wave_table_spec(5, 1));
                }
                WaveConfig::Detailed(v)
            },
            (5, 2) => {
                let mut v: Vec<EnemyConfig> = Vec::new();
                push_cfg(&mut v, EnemyConfig { position: PositionConfig::Random(Vec2i { x: -360_000, y: -225_000 }, Vec2i { x: 60_000, y: 240_000 }), bullet_direction: BulletDirectionConfig::Trace, hp: 1000, bullet_speed: 450, shooting_interval: 400, ..EnemyConfig::default() });
                push_cfg(&mut v, EnemyConfig { position: PositionConfig::Random(Vec2i { x: -180_000, y: -45_000 }, Vec2i { x: 60_000, y: 240_000 }), bullet_direction: BulletDirectionConfig::Trace, hp: 1000, bullet_speed: 500, shooting_interval: 400, ..EnemyConfig::default() });
                push_cfg(&mut v, EnemyConfig { position: PositionConfig::Random(Vec2i { x: 45_000, y: 180_000 }, Vec2i { x: 60_000, y: 240_000 }), bullet_direction: BulletDirectionConfig::Trace, hp: 1000, bullet_speed: 500, shooting_interval: 400, ..EnemyConfig::default() });
                push_cfg(&mut v, EnemyConfig { position: PositionConfig::Random(Vec2i { x: 225_000, y: 360_000 }, Vec2i { x: 60_000, y: 240_000 }), bullet_direction: BulletDirectionConfig::Trace, hp: 1000, bullet_speed: 450, shooting_interval: 400, ..EnemyConfig::default() });
                proof {
                    assert(v@ =~= wave_table_spec(5, 2));
                }
                WaveConfig::Detailed(v)
            },
            (5, 3) => {
                let mut v: Vec<EnemyConfig> = Vec::new();
                push_cfg(&mut v, EnemyConfig { position: PositionConfig::Random(Vec2i { x: -360_000, y: -90_000 }, Vec2i { x: 60_000, y: 240_000 }), bullet_direction: BulletDirectionConfig::Trace, hp: 2200, bullet_speed: 500, shooting_interval: 350, ..EnemyConfig::default() });
                push_cfg(&mut v, EnemyConfig { position: PositionConfig::Random(Vec2i { x: 90_000, y: 360_000 }, Vec2i { x: 60_000, y: 240_000 }), bullet_direction: BulletDirectionConfig::Trace, hp: 2200, bullet_speed: 500, shooting_interval: 350, ..EnemyConfig::default() });
                proof {
                    assert(v@ =~= wave_table_spec(5, 3));
                }
                WaveConfig::Detailed(v)
            },
            (5, 4) => {
                let c = WaveConfig::Duplicate(
                    EnemyConfig { position: PositionConfig::Random(Vec2i { x: -45_000, y: 45_000 }, Vec2i { x: 210_000, y: 240_000 }), bullet_direction: BulletDirectionConfig::Trace, hp: 5000, bullet_speed: 666, shooting_interval: 200, ..EnemyConfig::default() },
                    1,
                );
                proof {
                    assert(c.entries() =~= wave_table_spec(5, 4));
                }
                c
            },
            (5, 5) => {
                let mut v: Vec<EnemyConfig> = Vec::new();
                push_cfg(&mut v, EnemyConfig { position: PositionConfig::Random(Vec2i { x: 360_000, y: 405_000 }, Vec2i { x: 150_000, y: 240_000 }), bullet_direction: BulletDirectionConfig::Trace, hp: 120, bullet_speed: 500, shooting_interval: 300, ..EnemyConfig::default() });
                push_cfg(&mut v, EnemyConfig { position: PositionConfig::Random(Vec2i { x: 270_000, y: 315_000 }, Vec2i { x: 150_000, y: 240_000 }), bullet_direction: BulletDirectionConfig::Trace, hp: 120, bullet_speed: 500, shooting_interval: 300, ..EnemyConfig::default() });
                push_cfg(&mut v, EnemyConfig { position: PositionConfig::Random(Vec2i { x: 180_000, y: 225_000 }, Vec2i { x: 150_000, y: 240_000 }), bullet_direction: BulletDirectionConfig::Trace, hp: 120, bullet_speed: 500, shooting_interval: 300, ..EnemyConfig::default() });
                push_cfg(&mut v, EnemyConfig { position: PositionConfig::Random(Vec2i { x: 90_000, y: 135_000 }, Vec2i { x: 150_000, y: 240_000 }), bullet_direction: BulletDirectionConfig::Trace, hp: 120, bullet_speed: 500, shooting_interval: 300, ..EnemyConfig::default() });
                push_cfg(&mut v, EnemyConfig { position: PositionConfig::Random(Vec2i { x: 0, y: 45_000 }, Vec2i { x: 150_000, y: 240_000 }), bullet_direction: BulletDirectionConfig::Trace, hp: 120, bullet_speed: 500, shooting_interval: 300, ..EnemyConfig::default() });
                push_cfg(&mut v, EnemyConfig { position: PositionConfig::Random(Vec2i { x: -45_000, y: 0 }, Vec2i { x: 150_000, y: 240_000 }), bullet_direction: BulletDirectionConfig::Trace, hp: 120, bullet_speed: 500, shooting_interval: 300, ..EnemyConfig::default() });
                push_cfg(&mut v, EnemyConfig { position: PositionConfig::Random(Vec2i { x: -135_000, y: -90_000 }, Vec2i { x: 150_000, y: 240_000 }), bullet_direction: BulletDirectionConfig::Trace, hp: 120, bullet_speed: 500, shooting_interval: 300, ..EnemyConfig::default() });
                push_cfg(&mut v, EnemyConfig { position: PositionConfig::Random(Vec2i { x: -225_000, y: -180_000 }, Vec2i { x: 150_000, y: 240_000 }), bullet_direction: BulletDirectionConfig::Trace, hp: 120, bullet_speed: 500, shooting_interval: 300, ..EnemyConfig::default() });
                push_cfg(&mut v, EnemyConfig { position: PositionConfig::Random(Vec2i { x: -315_000, y: -270_000 }, Vec2i { x: 150_000, y: 240_000 }), bullet_direction: BulletDirectionConfig::Trace, hp: 120, bullet_speed: 500, shooting_interval: 300, ..EnemyConfig::default() });
                push_cfg(&mut v, EnemyConfig { position: PositionConfig::Random(Vec2i { x: -405_000, y: -360_000 }, Vec2i { x: 150_000, y: 240_000 }), bullet_direction: BulletDirectionConfig::Trace, hp: 120, bullet_speed: 500, shooting_interval: 300, ..EnemyConfig::default() });
                proof {
                    assert(v@ =~= wave_table_spec(5, 5));
                }
                WaveConfig::Detailed(v)
            },
            _ => {
                proof {
                    assert(false);
                }
                WaveConfig::Duplicate(EnemyConfig::default(), 1)
            },
        }
    }
}

/// The wave content, stated: the enemies the `(level, wave)` table
/// entry spawns, in order. The executable lookup returns exactly
/// these entries.
pub open spec fn wave_table_spec(level: int, wave: int) -> Seq<EnemyConfig> {
    if level == 1 {
        wave_table_level1(wave)
    } else if level == 2 {
        wave_table_level2(wave)
    } else if level == 3 {
        wave_table_level3(wave)
    } else if level == 4 {
        wave_table_level4(wave)
    } else {
        wave_table_level5(wave)
    }
}

pub open spec fn wave_table_level1(wave: int) -> Seq<EnemyConfig> {
    if wave == 0 {
        seq![
            EnemyConfig { position: PositionConfig::Determinate(Vec2i { x: 225_000, y: 150_000 }), bullet_direction: BulletDirectionConfig::Determinate(Vec2i { x: 0, y: (-1000) as i64 }), hp: 10, bullet_speed: 150, shooting_interval: 2000, ..EnemyConfig::default_spec() },
            EnemyConfig { position: PositionConfig::Determinate(Vec2i { x: (-225_000) as i64, y: 150_000 }), bullet_direction: BulletDirectionConfig::Determinate(Vec2i { x: 0, y: (-1000) as i64 }), hp: 10, bullet_speed: 150, shooting_interval: 2000, ..EnemyConfig::default_spec() },
        ]
    } else if wave == 1 {
        seq![
            EnemyConfig { position: PositionConfig::Determinate(Vec2i { x: 0, y: 150_000 }), bullet_direction: BulletDirectionConfig::Determinate(Vec2i { x: 0, y: (-1000) as i64 }), hp: 80, bullet_speed: 200, shooting_interval: 1300, ..EnemyConfig::default_spec() },
        ]
    } else if wave == 2 {
        seq![
            EnemyConfig { bullet_direction: BulletDirectionConfig::Trace, hp: 30, bullet_speed: 200, shooting_interval: 1000, ..EnemyConfig::default_spec() },
        ]
    } else {
        seq![
            EnemyConfig { bullet_direction: BulletDirectionConfig::Trace, hp: 40, bullet_speed: 240, shooting_interval: 1000, ..EnemyConfig::default_spec() },
            EnemyConfig { bullet_direction: BulletDirectionConfig::Trace, hp: 40, bullet_speed: 240, shooting_interval: 1000, ..EnemyConfig::default_spec() },
        ]
    }
}

pub open spec fn wave_table_level2(wave: int) -> Seq<EnemyConfig> {
    if wave == 0 {
        seq![
            EnemyConfig { bullet_direction: BulletDirectionConfig::Determinate(Vec2i { x: 0, y: (-1000) as i64 }), hp: 100, bullet_speed: 250, shooting_interval: 1000, ..EnemyConfig::default_spec() },
        ]
    } else if wave == 1 {
        seq![
            EnemyConfig { position: PositionConfig::Random(Vec2i { x: (-360_000) as i64, y: (-90_000) as i64 }, Vec2i { x: 60_000, y: 240_000 }), bullet_direction: BulletDirectionConfig::Trace, hp: 100, bullet_speed: 300, shooting_interval: 1000, ..EnemyConfig::default_spec() },
            EnemyConfig { position: PositionConfig::Random(Vec2i { x: 90_000, y: 360_000 }, Vec2i { x: 60_000, y: 240_000 }), bullet_direction: BulletDirectionConfig::Trace, hp: 100, bullet_speed: 300, shooting_interval: 1000, ..EnemyConfig::default_spec() },
        ]
    } else if wave == 2 {
        seq![
            EnemyConfig { position: PositionConfig::Random(Vec2i { x: (-360_000) as i64, y: (-180_000) as i64 }, Vec2i { x: 120_000, y: 240_000 }), bullet_direction: BulletDirectionConfig::Trace, hp: 80, bullet_speed: 300, shooting_interval: 1400, ..EnemyConfig::default_spec() },
            EnemyConfig { position: PositionConfig::Random(Vec2i { x: (-90_000) as i64, y: 90_000 }, Vec2i { x: 120_000, y: 240_000 }), bullet_direction: BulletDirectionConfig::Determinate(Vec2i { x: 0, y: (-1000) as i64 }), hp: 120, bullet_speed: 300, shooting_interval: 800, ..EnemyConfig::default_spec() },
            EnemyConfig { position: PositionConfig::Random(Vec2i { x: 180_000, y: 360_000 }, Vec2i { x: 120_000, y: 240_000 }), bullet_direction: BulletDirectionConfig::Trace, hp: 80, bullet_speed: 300, shooting_interval: 1400, ..EnemyConfig::default_spec() },
        ]
    } else {
        seq![
            EnemyConfig { position: PositionConfig::Random(Vec2i { x: (-427_500) as i64, y: (-292_500) as i64 }, Vec2i { x: 120_000, y: 240_000 }), bullet_direction: BulletDirectionConfig::Trace, hp: 40, shooting_interval: 1200, ..EnemyConfig::default_spec() },
            EnemyConfig { position: PositionConfig::Random(Vec2i { x: (-247_500) as i64, y: (-135_000) as i64 }, Vec2i { x: 120_000, y: 240_000 }), bullet_direction: BulletDirectionConfig::Trace, hp: 80, shooting_interval: 1200, ..EnemyConfig::default_spec() },
            EnemyConfig { position: PositionConfig::Random(Vec2i { x: (-90_000) as i64, y: 90_000 }, Vec2i { x: 120_000, y: 240_000 }), bullet_direction: BulletDirectionConfig::Determinate(Vec2i { x: 0, y: (-1000) as i64 }), hp: 120, shooting_interval: 800, ..EnemyConfig::default_spec() },
            EnemyConfig { position: PositionConfig::Random(Vec2i { x: 135_000, y: 247_500 }, Vec2i { x: 120_000, y: 240_000 }), bullet_direction: BulletDirectionConfig::Trace, hp: 80, shooting_interval: 1200, ..EnemyConfig::default_spec() },
            EnemyConfig { position: PositionConfig::Random(Vec2i { x: 292_500, y: 427_500 }, Vec2i { x: 120_000, y: 240_000 }), bullet_direction: BulletDirectionConfig::Trace, hp: 40, shooting_interval: 1200, ..EnemyConfig::default_spec() },
        ]
    }
}

pub open spec fn wave_table_level3(wave: int) -> Seq<EnemyConfig> {
    if wave == 0 {
        seq![
            EnemyConfig { position: PositionConfig::Random(Vec2i { x: (-360_000) as i64, y: (-180_000) as i64 }, Vec2i { x: 60_000, y: 240_000 }), bullet_direction: BulletDirectionConfig::Determinate(Vec2i { x: 0, y: (-1000) as i64 }), hp: 100, ..EnemyConfig::default_spec() },
            EnemyConfig { position: PositionConfig::Random(Vec2i { x: (-90_000) as i64, y: 90_000 }, Vec2i { x: 60_000, y: 240_000 }), bullet_direction: BulletDirectionConfig::Determinate(Vec2i { x: 0, y: (-1000) as i64 }), hp: 100, ..EnemyConfig::default_spec() },
            EnemyConfig { position: PositionConfig::Random(Vec2i { x: 180_000, y: 360_000 }, Vec2i { x: 60_000, y: 240_000 }), bullet_direction: BulletDirectionConfig::Determinate(Vec2i { x: 0, y: (-1000) as i64 }), hp: 100, ..EnemyConfig::default_spec() },
        ]
    } else if wave == 1 {
        seq![
            EnemyConfig { position: PositionConfig::Random(Vec2i { x: (-360_000) as i64, y: (-90_000) as i64 }, Vec2i { x: 60_000, y: 240_000 }), bullet_direction: BulletDirectionConfig::Trace, hp: 100, ..EnemyConfig::default_spec() },
            EnemyConfig { position: PositionConfig::Random(Vec2i { x: 90_000, y: 360_000 }, Vec2i { x: 60_000, y: 240_000 }), bullet_direction: BulletDirectionConfig::Trace, hp: 100, ..EnemyConfig::default_spec() },
        ]
    } else if wave == 2 {
        seq![
            EnemyConfig { position: PositionConfig::Random(Vec2i { x: (-360_000) as i64, y: (-180_000) as i64 }, Vec2i { x: 60_000, y: 240_000 }), bullet_direction: BulletDirectionConfig::Trace, hp: 80, ..EnemyConfig::default_spec() },
            EnemyConfig { position: PositionConfig::Random(Vec2i { x: (-90_000) as i64, y: 90_000 }, Vec2i { x: 60_000, y: 240_000 }), bullet_direction: BulletDirectionConfig::Trace, hp: 80, ..EnemyConfig::default_spec() },
            EnemyConfig { position: PositionConfig::Random(Vec2i { x: 180_000, y: 360_000 }, Vec2i { x: 60_000, y: 240_000 }), bullet_direction: BulletDirectionConfig::Trace, hp: 80, ..EnemyConfig::default_spec() },
        ]
    } else if wave == 3 {
        seq![
            EnemyConfig { position: PositionConfig::Random(Vec2i { x: (-360_000) as i64, y: (-90_000) as i64 }, Vec2i { x: 60_000, y: 240_000 }), bullet_direction: BulletDirectionConfig::Trace, hp: 80, bullet_speed: 400, shooting_interval: 400, ..EnemyConfig::default_spec() },
            EnemyConfig { position: PositionConfig::Random(Vec2i { x: 90_000, y: 360_000 }, Vec2i { x: 60_000, y: 240_000 }), bullet_direction: BulletDirectionConfig::Trace, hp: 80, bullet_speed: 400, shooting_interval: 400, ..EnemyConfig::default_spec() },
        ]
    } else {
        seq![
            EnemyConfig { position: PositionConfig::Determinate(Vec2i { x: 405_000, y: 0 }), bullet_direction: BulletDirectionConfig::Trace, hp: 20, bullet_speed: 100, shooting_interval: 400, ..EnemyConfig::default_spec() },
            EnemyConfig { position: PositionConfig::Determinate(Vec2i { x: 324_000, y: 120_000 }), bullet_direction: BulletDirectionConfig::Trace, hp: 40, bullet_speed: 150, shooting_interval: 600, ..EnemyConfig::default_spec() },
            EnemyConfig { position: PositionConfig::Determinate(Vec2i { x: 243_000, y: 180_000 }), bullet_direction: BulletDirectionConfig::Trace, hp: 80, bullet_speed: 200, shooting_interval: 800, ..EnemyConfig::default_spec() },
            EnemyConfig { position: PositionConfig::Determinate(Vec2i { x: 171_000, y: 225_000 }), bullet_direction: BulletDirectionConfig::Trace, hp: 120, bullet_speed: 300, shooting_interval: 900, ..EnemyConfig::default_spec() },
            EnemyConfig { position: PositionConfig::Determinate(Vec2i { x: 81_000, y: 255_000 }), bullet_direction: BulletDirectionConfig::Trace, hp: 160, bullet_speed: 350, shooting_interval: 1000, ..EnemyConfig::default_spec() },
            EnemyConfig { position: PositionConfig::Determinate(Vec2i { x: 0, y: 270_000 }), bullet_direction: BulletDirectionConfig::Determinate(Vec2i { x: 0, y: (-1000) as i64 }), hp: 200, bullet_speed: 400, shooting_interval: 400, ..EnemyConfig::default_spec() },
            EnemyConfig { position: PositionConfig::Determinate(Vec2i { x: (-81_000) as i64, y: 255_000 }), bullet_direction: BulletDirectionConfig::Trace, hp: 160, bullet_speed: 350, shooting_interval: 1000, ..EnemyConfig::default_spec() },
            EnemyConfig { position: PositionConfig::Determinate(Vec2i { x: (-162_000) as i64, y: 225_000 }), bullet_direction: BulletDirectionConfig::Trace, hp: 120, bullet_speed: 300, shooting_interval: 900, ..EnemyConfig::default_spec() },
            EnemyConfig { position: PositionConfig::Determinate(Vec2i { x: (-243_000) as i64, y: 180_000 }), bullet_direction: BulletDirectionConfig::Trace, hp: 80, bullet_speed: 200, shooting_interval: 800, ..EnemyConfig::default_spec() },
            EnemyConfig { position: PositionConfig::Determinate(Vec2i { x: (-324_000) as i64, y: 120_000 }), bullet_direction: BulletDirectionConfig::Trace, hp: 40, bullet_speed: 150, shooting_interval: 600, ..EnemyConfig::default_spec() },
            EnemyConfig { position: PositionConfig::Determinate(Vec2i { x: (-405_000) as i64, y: 0 }), bullet_direction: BulletDirectionConfig::Trace, hp: 20, bullet_speed: 100, shooting_interval: 400, ..EnemyConfig::default_spec() },
        ]
    }
}

pub open spec fn wave_table_level4(wave: int) -> Seq<EnemyConfig> {
    if wave == 0 {
        seq![
            EnemyConfig { position: PositionConfig::Random(Vec2i { x: (-360_000) as i64, y: (-90_000) as i64 }, Vec2i { x: 60_000, y: 240_000 }), bullet_direction: BulletDirectionConfig::Trace, hp: 100, bullet_speed: 500, shooting_interval: 400, ..EnemyConfig::default_spec() },
            EnemyConfig { position: PositionConfig::Random(Vec2i { x: 90_000, y: 360_000 }, Vec2i { x: 60_000, y: 240_000 }), bullet_direction: BulletDirectionConfig::Trace, hp: 100, bullet_speed: 500, shooting_interval: 400, ..EnemyConfig::default_spec() },
        ]
    } else if wave == 1 {
        seq![
            EnemyConfig { position: PositionConfig::Random(Vec2i { x: (-360_000) as i64, y: (-180_000) as i64 }, Vec2i { x: 60_000, y: 240_000 }), bullet_direction: BulletDirectionConfig::Trace, hp: 100, bullet_speed: 400, shooting_interval: 400, ..EnemyConfig::default_spec() },
            EnemyConfig { position: PositionConfig::Random(Vec2i { x: (-90_000) as i64, y: 90_000 }, Vec2i { x: 60_000, y: 240_000 }), bullet_direction: BulletDirectionConfig::Trace, hp: 150, bullet_speed: 500, shooting_interval: 600, ..EnemyConfig::default_spec() },
            EnemyConfig { position: PositionConfig::Random(Vec2i { x: 180_000, y: 360_000 }, Vec2i { x: 60_000, y: 240_000 }), bullet_direction: BulletDirectionConfig::Trace, hp: 100, bullet_speed: 400, shooting_interval: 400, ..EnemyConfig::default_spec() },
        ]
    } else if wave == 2 {
        seq![
            EnemyConfig { position: PositionConfig::Random(Vec2i { x: (-405_000) as i64, y: (-315_000) as i64 }, Vec2i { x: 60_000, y: 240_000 }), bullet_direction: BulletDirectionConfig::Trace, hp: 80, bullet_speed: 400, shooting_interval: 400, ..EnemyConfig::default_spec() },
            EnemyConfig { position: PositionConfig::Random(Vec2i { x: (-270_000) as i64, y: (-180_000) as i64 }, Vec2i { x: 60_000, y: 240_000 }), bullet_direction: BulletDirectionConfig::Trace, hp: 120, bullet_speed: 400, shooting_interval: 400, ..EnemyConfig::default_spec() },
            EnemyConfig { position: PositionConfig::Random(Vec2i { x: (-90_000) as i64, y: 90_000 }, Vec2i { x: 60_000, y: 240_000 }), bullet_direction: BulletDirectionConfig::Trace, hp: 120, bullet_speed: 400, shooting_interval: 400, ..EnemyConfig::default_spec() },
            EnemyConfig { position: PositionConfig::Random(Vec2i { x: 180_000, y: 270_000 }, Vec2i { x: 60_000, y: 240_000 }), bullet_direction: BulletDirectionConfig::Trace, hp: 120, bullet_speed: 400, shooting_interval: 400, ..EnemyConfig::default_spec() },
            EnemyConfig { position: PositionConfig::Random(Vec2i { x: 315_000, y: 405_000 }, Vec2i { x: 60_000, y: 240_000 }), bullet_direction: BulletDirectionConfig::Trace, hp: 120, bullet_speed: 400, shooting_interval: 400, ..EnemyConfig::default_spec() },
        ]
    } else if wave == 3 {
        seq![
            EnemyConfig { position: PositionConfig::Random(Vec2i { x: 360_000, y: 405_000 }, Vec2i { x: 150_000, y: 240_000 }), bullet_direction: BulletDirectionConfig::Determinate(Vec2i { x: 0, y: (-1000) as i64 }), hp: 120, bullet_speed: 500, shooting_interval: 300, ..EnemyConfig::default_spec() },
            EnemyConfig { position: PositionConfig::Random(Vec2i { x: 270_000, y: 315_000 }, Vec2i { x: 150_000, y: 240_000 }), bullet_direction: BulletDirectionConfig::Determinate(Vec2i { x: 0, y: (-1000) as i64 }), hp: 120, bullet_speed: 500, shooting_interval: 300, ..EnemyConfig::default_spec() },
            EnemyConfig { position: PositionConfig::Random(Vec2i { x: 180_000, y: 225_000 }, Vec2i { x: 150_000, y: 240_000 }), bullet_direction: BulletDirectionConfig::Determinate(Vec2i { x: 0, y: (-1000) as i64 }), hp: 120, bullet_speed: 500, shooting_interval: 300, ..EnemyConfig::default_spec() },
            EnemyConfig { position: PositionConfig::Random(Vec2i { x: 90_000, y: 135_000 }, Vec2i { x: 150_000, y: 240_000 }), bullet_direction: BulletDirectionConfig::Determinate(Vec2i { x: 0, y: (-1000) as i64 }), hp: 120, bullet_speed: 500, shooting_interval: 300, ..EnemyConfig::default_spec() },
            EnemyConfig { position: PositionConfig::Random(Vec2i { x: 0, y: 45_000 }, Vec2i { x: 150_000, y: 240_000 }), bullet_direction: BulletDirectionConfig::Determinate(Vec2i { x: 0, y: (-1000) as i64 }), hp: 120, bullet_speed: 500, shooting_interval: 300, ..EnemyConfig::default_spec() },
            EnemyConfig { position: PositionConfig::Random(Vec2i { x: (-45_000) as i64, y: 0 }, Vec2i { x: 150_000, y: 240_000 }), bullet_direction: BulletDirectionConfig::Determinate(Vec2i { x: 0, y: (-1000) as i64 }), hp: 120, bullet_speed: 500, shooting_interval: 300, ..EnemyConfig::default_spec() },
            EnemyConfig { position: PositionConfig::Random(Vec2i { x: (-135_000) as i64, y: (-90_000) as i64 }, Vec2i { x: 150_000, y: 240_000 }), bullet_direction: BulletDirectionConfig::Determinate(Vec2i { x: 0, y: (-1000) as i64 }), hp: 120, bullet_speed: 500, shooting_interval: 300, ..EnemyConfig::default_spec() },
            EnemyConfig { position: PositionConfig::Random(Vec2i { x: (-225_000) as i64, y: (-180_000) as i64 }, Vec2i { x: 150_000, y: 240_000 }), bullet_direction: BulletDirectionConfig::Determinate(Vec2i { x: 0, y: (-1000) as i64 }), hp: 120, bullet_speed: 500, shooting_interval: 300, ..EnemyConfig::default_spec() },
            EnemyConfig { position: PositionConfig::Random(Vec2i { x: (-315_000) as i64, y: (-270_000) as i64 }, Vec2i { x: 150_000, y: 240_000 }), bullet_direction: BulletDirectionConfig::Determinate(Vec2i { x: 0, y: (-1000) as i64 }), hp: 120, bullet_speed: 500, shooting_interval: 300, ..EnemyConfig::default_spec() },
            EnemyConfig { position: PositionConfig::Random(Vec2i { x: (-405_000) as i64, y: (-360_000) as i64 }, Vec2i { x: 150_000, y: 240_000 }), bullet_direction: BulletDirectionConfig::Determinate(Vec2i { x: 0, y: (-1000) as i64 }), hp: 120, bullet_speed: 500, shooting_interval: 300, ..EnemyConfig::default_spec() },
        ]
    } else {
        seq![
            EnemyConfig { position: PositionConfig::Random(Vec2i { x: (-45_000) as i64, y: 45_000 }, Vec2i { x: 210_000, y: 240_000 }), bullet_direction: BulletDirectionConfig::Trace, hp: 1500, bullet_speed: 400, shooting_interval: 400, ..EnemyConfig::default_spec() },
        ]
    }
}

pub open spec fn wave_table_level5(wave: int) -> Seq<EnemyConfig> {
    if wave == 0 {
        seq![
            EnemyConfig { position: PositionConfig::Random(Vec2i { x: (-360_000) as i64, y: (-90_000) as i64 }, Vec2i { x: 60_000, y: 240_000 }), bullet_direction: BulletDirectionConfig::Trace, hp: 150, bullet_speed: 666, shooting_interval: 350, ..EnemyConfig::default_spec() },
            EnemyConfig { position: PositionConfig::Random(Vec2i { x: 90_000, y: 360_000 }, Vec2i { x: 60_000, y: 240_000 }), bullet_direction: BulletDirectionConfig::Trace, hp: 150, bullet_speed: 666, shooting_interval: 350, ..EnemyConfig::default_spec() },
        ]
    } else if wave == 1 {
        seq![
            EnemyConfig { position: PositionConfig::Random(Vec2i { x: (-405_000) as i64, y: (-315_000) as i64 }, Vec2i { x: 60_000, y: 240_000 }), bullet_direction: BulletDirectionConfig::Trace, hp: 80, bullet_speed: 400, shooting_interval: 400, ..EnemyConfig::default_spec() },
            EnemyConfig { position: PositionConfig::Random(Vec2i { x: (-270_000) as i64, y: (-180_000) as i64 }, Vec2i { x: 60_000, y: 240_000 }), bullet_direction: BulletDirectionConfig::Trace, hp: 120, bullet_speed: 400, shooting_interval: 400, ..EnemyConfig::default_spec() },
            EnemyConfig { position: PositionConfig::Random(Vec2i { x: (-90_000) as i64, y: 90_000 }, Vec2i { x: 60_000, y: 240_000 }), bullet_direction: BulletDirectionConfig::Trace, hp: 150, bullet_speed: 500, shooting_interval: 350, ..EnemyConfig::default_spec() },
            EnemyConfig { position: PositionConfig::Random(Vec2i { x: 180_000, y: 270_000 }, Vec2i { x: 60_000, y: 240_000 }), bullet_direction: BulletDirectionConfig::Trace, hp: 150, bullet_speed: 500, shooting_interval: 350, ..EnemyConfig::default_spec() },
            EnemyConfig { position: PositionConfig::Random(Vec2i { x: 315_000, y: 405_000 }, Vec2i { x: 60_000, y: 240_000 }), bullet_direction: BulletDirectionConfig::Trace, hp: 150, bullet_speed: 500, shooting_interval: 350, ..EnemyConfig::default_spec() },
        ]
    } else if wave == 2 {
        seq![
            EnemyConfig { position: PositionConfig::Random(Vec2i { x: (-360_000) as i64, y: (-225_000) as i64 }, Vec2i { x: 60_000, y: 240_000 }), bullet_direction: BulletDirectionConfig::Trace, hp: 1000, bullet_speed: 450, shooting_interval: 400, ..EnemyConfig::default_spec() },
            EnemyConfig { position: PositionConfig::Random(Vec2i { x: (-180_000) as i64, y: (-45_000) as i64 }, Vec2i { x: 60_000, y: 240_000 }), bullet_direction: BulletDirectionConfig::Trace, hp: 1000, bullet_speed: 500, shooting_interval: 400, ..EnemyConfig::default_spec() },
            EnemyConfig { position: PositionConfig::Random(Vec2i { x: 45_000, y: 180_000 }, Vec2i { x: 60_000, y: 240_000 }), bullet_direction: BulletDirectionConfig::Trace, hp: 1000, bullet_speed: 500, shooting_interval: 400, ..EnemyConfig::default_spec() },
            EnemyConfig { position: PositionConfig::Random(Vec2i { x: 225_000, y: 360_000 }, Vec2i { x: 60_000, y: 240_000 }), bullet_direction: BulletDirectionConfig::Trace, hp: 1000, bullet_speed: 450, shooting_interval: 400, ..EnemyConfig::default_spec() },
        ]
    } else if wave == 3 {
        seq![
            EnemyConfig { position: PositionConfig::Random(Vec2i { x: (-360_000) as i64, y: (-90_000) as i64 }, Vec2i { x: 60_000, y: 240_000 }), bullet_direction: BulletDirectionConfig::Trace, hp: 2200, bullet_speed: 500, shooting_interval: 350, ..EnemyConfig::default_spec() },
            EnemyConfig { position: PositionConfig::Random(Vec2i { x: 90_000, y: 360_000 }, Vec2i { x: 60_000, y: 240_000 }), bullet_direction: BulletDirectionConfig::Trace, hp: 2200, bullet_speed: 500, shooting_interval: 350, ..EnemyConfig::default_spec() },
        ]
    } else if wave == 4 {
        seq![
            EnemyConfig { position: PositionConfig::Random(Vec2i { x: (-45_000) as i64, y: 45_000 }, Vec2i { x: 210_000, y: 240_000 }), bullet_direction: BulletDirectionConfig::Trace, hp: 5000, bullet_speed: 666, shooting_interval: 200, ..EnemyConfig::default_spec() },
        ]
    } else {
        seq![
            EnemyConfig { position: PositionConfig::Random(Vec2i { x: 360_000, y: 405_000 }, Vec2i { x: 150_000, y: 240_000 }), bullet_direction: BulletDirectionConfig::Trace, hp: 120, bullet_speed: 500, shooting_interval: 300, ..EnemyConfig::default_spec() },
            EnemyConfig { position: PositionConfig::Random(Vec2i { x: 270_000, y: 315_000 }, Vec2i { x: 150_000, y: 240_000 }), bullet_direction: BulletDirectionConfig::Trace, hp: 120, bullet_speed: 500, shooting_interval: 300, ..EnemyConfig::default_spec() },
            EnemyConfig { position: PositionConfig::Random(Vec2i { x: 180_000, y: 225_000 }, Vec2i { x: 150_000, y: 240_000 }), bullet_direction: BulletDirectionConfig::Trace, hp: 120, bullet_speed: 500, shooting_interval: 300, ..EnemyConfig::default_spec() },
            EnemyConfig { position: PositionConfig::Random(Vec2i { x: 90_000, y: 135_000 }, Vec2i { x: 150_000, y: 240_000 }), bullet_direction: BulletDirectionConfig::Trace, hp: 120, bullet_speed: 500, shooting_interval: 300, ..EnemyConfig::default_spec() },
            EnemyConfig { position: PositionConfig::Random(Vec2i { x: 0, y: 45_000 }, Vec2i { x: 150_000, y: 240_000 }), bullet_direction: BulletDirectionConfig::Trace, hp: 120, bullet_speed: 500, shooting_interval: 300, ..EnemyConfig::default_spec() },
            EnemyConfig { position: PositionConfig::Random(Vec2i { x: (-45_000) as i64, y: 0 }, Vec2i { x: 150_000, y: 240_000 }), bullet_direction: BulletDirectionConfig::Trace, hp: 120, bullet_speed: 500, shooting_interval: 300, ..EnemyConfig::default_spec() },
            EnemyConfig { position: PositionConfig::Random(Vec2i { x: (-135_000) as i64, y: (-90_000) as i64 }, Vec2i { x: 150_000, y: 240_000 }), bullet_direction: BulletDirectionConfig::Trace, hp: 120, bullet_speed: 500, shooting_interval: 300, ..EnemyConfig::default_spec() },
            EnemyConfig { position: PositionConfig::Random(Vec2i { x: (-225_000) as i64, y: (-180_000) as i64 }, Vec2i { x: 150_000, y: 240_000 }), bullet_direction: BulletDirectionConfig::Trace, hp: 120, bullet_speed: 500, shooting_interval: 300, ..EnemyConfig::default_spec() },
            EnemyConfig { position: PositionConfig::Random(Vec2i { x: (-315_000) as i64, y: (-270_000) as i64 }, Vec2i { x: 150_000, y: 240_000 }), bullet_direction: BulletDirectionConfig::Trace, hp: 120, bullet_speed: 500, shooting_interval: 300, ..EnemyConfig::default_spec() },
            EnemyConfig { position: PositionConfig::Random(Vec2i { x: (-405_000) as i64, y: (-360_000) as i64 }, Vec2i { x: 150_000, y: 240_000 }), bullet_direction: BulletDirectionConfig::Trace, hp: 120, bullet_speed: 500, shooting_interval: 300, ..EnemyConfig::default_spec() },
        ]
    }
}

} // verus!
