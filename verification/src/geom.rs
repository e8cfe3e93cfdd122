//! Fixed-point plane geometry: vectors, intersection tests between
//! bounding circles and axis-aligned boxes, and the integer square
//! root used to aim a projectile at a point.
//!
//! Coordinates are milli-units (thousandths of a world unit); all
//! arithmetic is exact on integers.

use vstd::prelude::*;
use crate::{POS_LIMIT, VEL_LIMIT};

verus! {

/// Greatest magnitude accepted for the components of an aim vector:
/// the difference of two in-range coordinates always fits.
pub const DIR_INPUT_LIMIT: i64 = 0x8000_0000;

/// A point, displacement or extent in the plane, in milli-units.
#[derive(Clone, Copy, Debug, PartialEq, Eq, Structural)]
pub struct Vec2i {
    pub x: i64,
    pub y: i64,
}

pub open spec fn abs_spec(v: int) -> int {
    if v >= 0 {
        v
    } else {
        -v
    }
}

/// Distance from a coordinate gap `d` to the edge of a box of
/// half-extent `h`: zero while the coordinate lies inside.
pub open spec fn gap_spec(d: int, h: int) -> int {
    if abs_spec(d) > h {
        abs_spec(d) - h
    } else {
        0
    }
}

/// A circle of radius `r` around `c` meets the axis-aligned box of
/// half-extents `(hx, hy)` around `b` exactly when the squared
/// distance from `c` to the box's closest point is at most `r`
/// squared; touching counts as meeting.
pub open spec fn circle_box_hit_spec(c: Vec2i, r: int, b: Vec2i, hx: int, hy: int) -> bool {
    let gx = gap_spec(c.x - b.x, hx);
    let gy = gap_spec(c.y - b.y, hy);
    gx * gx + gy * gy <= r * r
}

/// Two axis-aligned boxes meet exactly when they overlap on both
/// axes; touching counts as meeting.
pub open spec fn box_box_hit_spec(a: Vec2i, ahx: int, ahy: int, b: Vec2i, bhx: int, bhy: int) -> bool {
    abs_spec(a.x - b.x) <= ahx + bhx && abs_spec(a.y - b.y) <= ahy + bhy
}

pub fn abs64(v: i64) -> (r: u64)
    requires
        v > i64::MIN,
    ensures
        r == abs_spec(v as int),
{
    if v >= 0 {
        v as u64
    } else {
        (-v) as u64
    }
}

/// Decide `circle_box_hit_spec` on machine integers.
pub fn circle_box_hit(c: Vec2i, r: i64, b: Vec2i, hx: i64, hy: i64) -> (hit: bool)
    requires
        -POS_LIMIT <= c.x <= POS_LIMIT,
        -POS_LIMIT <= c.y <= POS_LIMIT,
        -POS_LIMIT <= b.x <= POS_LIMIT,
        -POS_LIMIT <= b.y <= POS_LIMIT,
        0 <= r <= POS_LIMIT,
        0 <= hx <= POS_LIMIT,
        0 <= hy <= POS_LIMIT,
    ensures
        hit == circle_box_hit_spec(c, r as int, b, hx as int, hy as int),
{
    let gx: u64 = coord_gap(c.x, b.x, hx);
    let gy: u64 = coord_gap(c.y, b.y, hy);
    proof {
        assert(gx * gx <= 0x8000_0000u64 * 0x8000_0000u64 && gy * gy <= 0x8000_0000u64
            * 0x8000_0000u64) by (nonlinear_arith)
            requires
                gx <= 0x8000_0000u64,
                gy <= 0x8000_0000u64,
        ;
    }
    let d2: u64 = gx * gx + gy * gy;
    proof {
        assert((r as u64) * (r as u64) <= 0x4000_0000u64 * 0x4000_0000u64) by (nonlinear_arith)
            requires
                r as u64 <= 0x4000_0000u64,
        ;
    }
    let r2: u64 = (r as u64) * (r as u64);
    d2 <= r2
}

/// The gap between coordinate `c` and a box edge at `b +- h`.
fn coord_gap(c: i64, b: i64, h: i64) -> (g: u64)
    requires
        -POS_LIMIT <= c <= POS_LIMIT,
        -POS_LIMIT <= b <= POS_LIMIT,
        0 <= h <= POS_LIMIT,
    ensures
        g == gap_spec(c - b, h as int),
        g <= 0x8000_0000u64,
{
    let d: i64 = c - b;
    let a: u64 = abs64(d);
    if a > h as u64 {
        a - h as u64
    } else {
        0
    }
}

/// Decide `box_box_hit_spec` on machine integers.
pub fn box_box_hit(a: Vec2i, ahx: i64, ahy: i64, b: Vec2i, bhx: i64, bhy: i64) -> (hit: bool)
    requires
        -POS_LIMIT <= a.x <= POS_LIMIT,
        -POS_LIMIT <= a.y <= POS_LIMIT,
        -POS_LIMIT <= b.x <= POS_LIMIT,
        -POS_LIMIT <= b.y <= POS_LIMIT,
        0 <= ahx <= POS_LIMIT,
        0 <= ahy <= POS_LIMIT,
        0 <= bhx <= POS_LIMIT,
        0 <= bhy <= POS_LIMIT,
    ensures
        hit == box_box_hit_spec(a, ahx as int, ahy as int, b, bhx as int, bhy as int),
{
    let dx: u64 = abs64(a.x - b.x);
    let dy: u64 = abs64(a.y - b.y);
    dx <= (ahx + bhx) as u64 && dy <= (ahy + bhy) as u64
}

/// The integer square root: the greatest `r` with `r * r <= n`.
pub open spec fn sqrt_floor(n: nat) -> nat
    decreases n,
{
    if n == 0 {
        0
    } else {
        let p = sqrt_floor((n - 1) as nat);
        if (p + 1) * (p + 1) <= n {
            p + 1
        } else {
            p
        }
    }
}

pub proof fn lemma_sqrt_floor_bounds(n: nat)
    ensures
        sqrt_floor(n) * sqrt_floor(n) <= n,
        n < (sqrt_floor(n) + 1) * (sqrt_floor(n) + 1),
    decreases n,
{
    if n == 0 {
        assert(sqrt_floor(0) == 0);
        assert(((0 + 1) * (0 + 1)) == 1) by (nonlinear_arith);
    } else {
        lemma_sqrt_floor_bounds((n - 1) as nat);
        let p = sqrt_floor((n - 1) as nat);
        assert(p * p <= n - 1 && (n - 1) < (p + 1) * (p + 1));
        if (p + 1) * (p + 1) <= n {
            assert(sqrt_floor(n) == p + 1);
            assert((p + 1) * (p + 1) < (p + 2) * (p + 2)) by (nonlinear_arith);
        } else {
            assert(sqrt_floor(n) == p);
        }
    }
}

pub proof fn lemma_sqrt_floor_unique(n: nat, r: nat)
    requires
        r * r <= n,
        n < (r + 1) * (r + 1),
    ensures
        r == sqrt_floor(n),
{
    lemma_sqrt_floor_bounds(n);
    let s = sqrt_floor(n);
    assert(r <= s) by (nonlinear_arith)
        requires
            r * r <= n,
            n < (s + 1) * (s + 1),
    ;
    assert(s <= r) by (nonlinear_arith)
        requires
            s * s <= n,
            n < (r + 1) * (r + 1),
    ;
}

/// Compute the integer square root by bisection.
pub fn isqrt64(n: u64) -> (r: u64)
    ensures
        r == sqrt_floor(n as nat),
        r <= 0xFFFF_FFFFu64,
{
    let mut lo: u64 = 0;
    let mut hi: u64 = 0x1_0000_0000;
    proof {
        assert(0x1_0000_0000 * 0x1_0000_0000 > n as int) by (nonlinear_arith)
            requires
                n <= 0xFFFF_FFFF_FFFF_FFFFu64,
        ;
    }
    while lo + 1 < hi
        invariant
            lo < hi <= 0x1_0000_0000u64,
            (lo as int) * (lo as int) <= n as int,
            (hi as int) * (hi as int) > n as int,
        decreases hi - lo,
    {
        let mid: u64 = lo + (hi - lo) / 2;
        proof {
            assert((mid as u128) * (mid as u128) <= 0x1_0000_0000u128 * 0x1_0000_0000u128)
                by (nonlinear_arith)
                requires
                    mid <= 0x1_0000_0000u64,
            ;
        }
        let sq: u128 = (mid as u128) * (mid as u128);
        if sq <= n as u128 {
            lo = mid;
        } else {
            hi = mid;
        }
    }
    proof {
        lemma_sqrt_floor_unique(n as nat, lo as nat);
    }
    lo
}

/// One signed component of an aim vector scaled to a given speed.
pub open spec fn scaled_component(d: int, speed: int, len: int) -> int {
    if d >= 0 {
        (d * speed) / len
    } else {
        -(((-d) * speed) / len)
    }
}

/// The velocity of a projectile aimed along the displacement
/// `(dx, dy)` with the given speed: the displacement scaled so that
/// its length becomes (up to rounding) `speed`. A zero displacement
/// has no direction; the documented fallback is straight down.
pub open spec fn velocity_toward_spec(dx: int, dy: int, speed: int) -> (int, int) {
    let len = sqrt_floor((dx * dx + dy * dy) as nat) as int;
    if len == 0 {
        (0, -speed)
    } else {
        (scaled_component(dx, speed, len), scaled_component(dy, speed, len))
    }
}

/// Compute `velocity_toward_spec` on machine integers.
pub fn velocity_toward(dx: i64, dy: i64, speed: i64) -> (v: Vec2i)
    requires
        -DIR_INPUT_LIMIT <= dx <= DIR_INPUT_LIMIT,
        -DIR_INPUT_LIMIT <= dy <= DIR_INPUT_LIMIT,
        0 <= speed <= VEL_LIMIT,
    ensures
        (v.x as int, v.y as int) == velocity_toward_spec(dx as int, dy as int, speed as int),
        -speed <= v.x <= speed,
        -speed <= v.y <= speed,
        dx == 0 && dy == 0 ==> v.x == 0 && v.y == -speed,
{
    let ax: u64 = abs64(dx);
    let ay: u64 = abs64(dy);
    proof {
        assert(ax * ax <= 0x8000_0000u64 * 0x8000_0000u64 && ay * ay <= 0x8000_0000u64
            * 0x8000_0000u64) by (nonlinear_arith)
            requires
                ax <= 0x8000_0000u64,
                ay <= 0x8000_0000u64,
        ;
        assert((ax * ax) as int == (dx as int) * (dx as int) && (ay * ay) as int == (dy as int) * (
        dy as int)) by (nonlinear_arith)
            requires
                ax == abs_spec(dx as int),
                ay == abs_spec(dy as int),
        ;
    }
    let n: u64 = ax * ax + ay * ay;
    let len: u64 = isqrt64(n);
    if len == 0 {
        proof {
            lemma_sqrt_floor_bounds(n as nat);
            assert(ax == 0 && ay == 0) by (nonlinear_arith)
                requires
                    (n as int) == ax * ax + ay * ay,
                    n < (sqrt_floor(n as nat) + 1) * (sqrt_floor(n as nat) + 1),
                    sqrt_floor(n as nat) == 0,
            ;
        }
        return Vec2i { x: 0, y: -speed };
    }
    let mx: u64 = scale_abs(ax, speed as u64, len, n);
    let my: u64 = scale_abs(ay, speed as u64, len, n);
    let vx: i64 = if dx >= 0 {
        mx as i64
    } else {
        -(mx as i64)
    };
    let vy: i64 = if dy >= 0 {
        my as i64
    } else {
        -(my as i64)
    };
    Vec2i { x: vx, y: vy }
}

/// `a * speed / len` for one axis, with `len` the length of the whole
/// aim vector, so the result never exceeds the speed.
fn scale_abs(a: u64, speed: u64, len: u64, n: u64) -> (m: u64)
    requires
        a <= 0x8000_0000u64,
        speed <= VEL_LIMIT as u64,
        len == sqrt_floor(n as nat),
        1 <= len,
        a * a <= n,
    ensures
        m == (a * speed) as int / len as int,
        m <= speed,
{
    proof {
        lemma_sqrt_floor_bounds(n as nat);
        // a <= len: otherwise a >= len + 1 and a * a > n.
        assert(a <= len) by (nonlinear_arith)
            requires
                a * a <= n,
                n < (len + 1) * (len + 1),
        ;
        assert(a * speed <= 0x8000_0000u64 * (VEL_LIMIT as u64)) by (nonlinear_arith)
            requires
                a <= 0x8000_0000u64,
                speed <= VEL_LIMIT as u64,
        ;
    }
    let prod: u64 = a * speed;
    let m: u64 = prod / len;
    proof {
        assert(m <= speed) by (nonlinear_arith)
            requires
                m == prod as int / len as int,
                prod == a * speed,
                a <= len,
                1 <= len,
        ;
    }
    m
}

} // verus!
