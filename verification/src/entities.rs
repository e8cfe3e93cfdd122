//! The simulated entities and their well-formedness.
//!
//! Capability is determined by which record an entity lives in, not
//! by inheritance: planes (the player and the enemies) carry health,
//! a gun and a laser charge; bullets carry a velocity; beam segments,
//! walls and pickups are plain colliders.

use vstd::prelude::*;
use crate::geom::Vec2i;
use crate::timer::Timer;
use crate::{FIX_LIMIT, OFFSET_LIMIT, POS_LIMIT, SIZE_LIMIT, VEL_LIMIT};
use crate::config::{BOTTOM_WALL, LEFT_WALL, RIGHT_WALL, TOP_WALL, WALL_THICKNESS};

verus! {

/// Both coordinates lie in the world's coordinate range.
pub open spec fn in_pos_range(p: Vec2i) -> bool {
    &&& -POS_LIMIT <= p.x <= POS_LIMIT
    &&& -POS_LIMIT <= p.y <= POS_LIMIT
}

/// How a gun aims its bullets: along a fixed heading vector, or at
/// the player's position as it is at the moment of the shot.
#[derive(Clone, Copy, Debug)]
pub enum BulletDirection {
    Fix(Vec2i),
    Trace,
}

impl BulletDirection {
    pub open spec fn valid(self) -> bool {
        match self {
            BulletDirection::Fix(v) => {
                &&& -FIX_LIMIT <= v.x <= FIX_LIMIT
                &&& -FIX_LIMIT <= v.y <= FIX_LIMIT
            },
            BulletDirection::Trace => true,
        }
    }
}

/// The shape and flight of the bullets a gun produces.
#[derive(Clone, Copy, Debug)]
pub struct BulletConfig {
    /// Muzzle offset from the wielder's position, in milli-units.
    pub relative_position: Vec2i,
    /// Bullet diameter, in milli-units.
    pub diameter: i64,
    /// Bullet speed, in milli-units per millisecond.
    pub speed: i64,
    pub direction: BulletDirection,
}

impl BulletConfig {
    pub open spec fn valid(self) -> bool {
        &&& -OFFSET_LIMIT <= self.relative_position.x <= OFFSET_LIMIT
        &&& -OFFSET_LIMIT <= self.relative_position.y <= OFFSET_LIMIT
        &&& 0 <= self.diameter <= SIZE_LIMIT
        &&& 0 <= self.speed <= VEL_LIMIT
        &&& self.direction.valid()
    }
}

/// A gun: a bullet template and the cooldown timer that paces it.
#[derive(Clone, Copy, Debug)]
pub struct GatlingGun {
    pub bullet_config: BulletConfig,
    pub shoot_timer: Timer,
}

impl GatlingGun {
    pub open spec fn valid(self) -> bool {
        &&& self.bullet_config.valid()
        &&& self.shoot_timer.wf()
    }
}

/// The laser-charge state of a plane. While `enabled`, the duration
/// timer measures how much of the charge has been spent firing.
#[derive(Clone, Copy, Debug)]
pub struct Laser {
    pub enabled: bool,
    pub duration_timer: Option<Timer>,
}

impl Laser {
    pub open spec fn valid(self) -> bool {
        &&& self.enabled ==> self.duration_timer is Some
        &&& self.duration_timer matches Some(t) ==> t.wf() && t.mode is Once
    }
}

/// A plane: the player's aircraft or an enemy aircraft. Its collider
/// is the axis-aligned box of extents `scale` around `pos`. A live
/// plane always has at least one hit point: damage that would drop
/// the count to zero destroys the plane in the same pass.
#[derive(Clone, Copy, Debug)]
pub struct Plane {
    /// Identity, unique within a world; never reused.
    pub id: u64,
    pub pos: Vec2i,
    pub scale: Vec2i,
    pub hp: u32,
    pub gun: GatlingGun,
    pub laser: Laser,
}

impl Plane {
    pub open spec fn valid(self) -> bool {
        &&& in_pos_range(self.pos)
        &&& 0 < self.scale.x <= SIZE_LIMIT
        &&& 0 < self.scale.y <= SIZE_LIMIT
        &&& self.hp >= 1
        &&& self.gun.valid()
        &&& self.laser.valid()
    }
}

/// A projectile in flight: a circular collider moving with a constant
/// velocity.
#[derive(Clone, Copy, Debug)]
pub struct Bullet {
    pub pos: Vec2i,
    pub radius: i64,
    pub vel: Vec2i,
}

impl Bullet {
    pub open spec fn valid(self) -> bool {
        &&& in_pos_range(self.pos)
        &&& 0 <= self.radius <= SIZE_LIMIT
        &&& -VEL_LIMIT <= self.vel.x <= VEL_LIMIT
        &&& -VEL_LIMIT <= self.vel.y <= VEL_LIMIT
    }
}

/// One segment of the laser beam, redrawn every tick from the
/// wielder's position to the top of the arena.
#[derive(Clone, Copy, Debug)]
pub struct LaserRay {
    pub pos: Vec2i,
    pub scale: Vec2i,
}

impl LaserRay {
    pub open spec fn valid(self) -> bool {
        &&& in_pos_range(self.pos)
        &&& 0 <= self.scale.x <= SIZE_LIMIT
        &&& 0 <= self.scale.y <= SIZE_LIMIT
    }
}

/// A collectible laser pickup; capturing it grants the player a full
/// laser charge.
#[derive(Clone, Copy, Debug)]
pub struct LaserStar {
    pub pos: Vec2i,
}

impl LaserStar {
    pub open spec fn valid(self) -> bool {
        in_pos_range(self.pos)
    }
}

/// An arena wall: a damage target without health. Projectiles burst
/// on it; the wall itself never changes.
#[derive(Clone, Copy, Debug)]
pub struct Wall {
    pub pos: Vec2i,
    pub scale: Vec2i,
}

impl Wall {
    pub open spec fn valid(self) -> bool {
        &&& in_pos_range(self.pos)
        &&& 0 <= self.scale.x <= SIZE_LIMIT
        &&& 0 <= self.scale.y <= SIZE_LIMIT
    }
}

/// Which side of the arena a wall closes off.
#[derive(Clone, Copy, Debug)]
pub enum WallLocation {
    Left,
    Right,
    Bottom,
    Top,
}

impl WallLocation {
    pub open spec fn position_spec(self) -> Vec2i {
        match self {
            WallLocation::Left => Vec2i { x: LEFT_WALL, y: 0 },
            WallLocation::Right => Vec2i { x: RIGHT_WALL, y: 0 },
            WallLocation::Bottom => Vec2i { x: 0, y: BOTTOM_WALL },
            WallLocation::Top => Vec2i { x: 0, y: TOP_WALL },
        }
    }

    pub open spec fn size_spec(self) -> Vec2i {
        match self {
            WallLocation::Left | WallLocation::Right => Vec2i {
                x: WALL_THICKNESS,
                y: ((TOP_WALL - BOTTOM_WALL) + WALL_THICKNESS) as i64,
            },
            WallLocation::Bottom | WallLocation::Top => Vec2i {
                x: ((RIGHT_WALL - LEFT_WALL) + WALL_THICKNESS) as i64,
                y: WALL_THICKNESS,
            },
        }
    }

    pub fn position(&self) -> (p: Vec2i)
        ensures
            p == self.position_spec(),
    {
        match self {
            WallLocation::Left => Vec2i { x: LEFT_WALL, y: 0 },
            WallLocation::Right => Vec2i { x: RIGHT_WALL, y: 0 },
            WallLocation::Bottom => Vec2i { x: 0, y: BOTTOM_WALL },
            WallLocation::Top => Vec2i { x: 0, y: TOP_WALL },
        }
    }

    pub fn size(&self) -> (s: Vec2i)
        ensures
            s == self.size_spec(),
    {
        match self {
            WallLocation::Left | WallLocation::Right => Vec2i {
                x: WALL_THICKNESS,
                y: (TOP_WALL - BOTTOM_WALL) + WALL_THICKNESS,
            },
            WallLocation::Bottom | WallLocation::Top => Vec2i {
                x: (RIGHT_WALL - LEFT_WALL) + WALL_THICKNESS,
                y: WALL_THICKNESS,
            },
        }
    }
}

impl Wall {
    /// The wall closing off the given side of the arena.
    pub fn new(location: WallLocation) -> (w: Wall)
        ensures
            w.pos == location.position_spec(),
            w.scale == location.size_spec(),
            w.valid(),
    {
        Wall { pos: location.position(), scale: location.size() }
    }
}

/// What a resolution pass reports outward; the host plays a sound for
/// each.
#[derive(Clone, Copy, Debug, PartialEq, Eq, Structural)]
pub enum HittingEvent {
    /// A projectile or beam burst on a wall.
    HitWall,
    /// A projectile or beam damaged a plane.
    HitTarget,
    /// The player captured a laser pickup.
    HitLaserPickup,
}

/// The outcome state of a level attempt.
#[derive(Clone, Copy, Debug, PartialEq, Eq, Structural)]
pub enum GameState {
    /// The attempt is running.
    Game,
    /// All waves of a non-final level were cleared.
    Win,
    /// The player's plane was destroyed.
    Lose,
    /// All waves of the final level were cleared.
    Completion,
}

} // verus!
