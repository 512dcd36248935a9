//! Fixed-point vector arithmetic for the simulation.
//!
//! Coordinates are milli-units held in `i64`; a motion step advances a
//! coordinate by `velocity * delta_micros / MICROS_PER_SEC`, truncated toward
//! zero and saturated at `COORD_LIMIT` so that integration never overflows.

use vstd::prelude::*;
use vstd::arithmetic::div_mod::{lemma_div_is_ordered, lemma_div_multiples_vanish,
    lemma_div_pos_is_pos, lemma_fundamental_div_mod, lemma_mod_division_less_than_divisor};

use crate::constants::{COORD_LIMIT, DELTA_LIMIT, EXTENT_LIMIT, MICROS_PER_SEC, SCALE_LIMIT,
    SPEED_LIMIT};

verus! {

/// A planar vector of milli-unit coordinates.
#[derive(Clone, Copy, Debug, PartialEq, Eq, Structural)]
pub struct Vec2 {
    pub x: i64,
    pub y: i64,
}

/// A spatial vector; `z` only orders drawing layers.
#[derive(Clone, Copy, Debug, PartialEq, Eq, Structural)]
pub struct Vec3 {
    pub x: i64,
    pub y: i64,
    pub z: i64,
}

impl Vec2 {
    pub fn new(x: i64, y: i64) -> (v: Vec2)
        ensures
            v == (Vec2 { x, y }),
    {
        Vec2 { x, y }
    }
}

impl Vec3 {
    pub fn new(x: i64, y: i64, z: i64) -> (v: Vec3)
        ensures
            v == (Vec3 { x, y, z }),
    {
        Vec3 { x, y, z }
    }
}

pub open spec fn abs_val(x: int) -> int {
    if x >= 0 { x } else { -x }
}

pub open spec fn clamped(lo: int, x: int, hi: int) -> int {
    if x < lo { lo } else if x > hi { hi } else { x }
}

/// Distance covered in `dt` microseconds at `v` milli-units per second,
/// truncated toward zero.
pub open spec fn motion_step(v: int, dt: int) -> int {
    if v >= 0 {
        v * dt / (MICROS_PER_SEC as int)
    } else {
        -((-v) * dt / (MICROS_PER_SEC as int))
    }
}

/// A coordinate advanced by one motion step, saturated at the world record
/// limit.
pub open spec fn advanced(p: int, v: int, dt: int) -> int {
    clamped(-COORD_LIMIT as int, p + motion_step(v, dt), COORD_LIMIT as int)
}

/// A velocity reduced by gravity `g` for `dt` microseconds, saturated at the
/// speed limit (a terminal velocity far beyond gameplay speeds).
pub open spec fn decelerated(v: int, g: int, dt: int) -> int {
    clamped(-SPEED_LIMIT as int, v - motion_step(g, dt), SPEED_LIMIT as int)
}

proof fn lemma_step_bounded(v: int, dt: int)
    requires
        -SPEED_LIMIT <= v <= SPEED_LIMIT,
        0 <= dt <= DELTA_LIMIT,
    ensures
        -COORD_LIMIT <= motion_step(v, dt) <= COORD_LIMIT,
        abs_val(motion_step(v, dt)) <= abs_val(v) * dt / (MICROS_PER_SEC as int),
{
    let m = MICROS_PER_SEC as int;
    assert(abs_val(v) * dt <= SPEED_LIMIT as int * DELTA_LIMIT as int) by (nonlinear_arith)
        requires
            0 <= abs_val(v) <= SPEED_LIMIT,
            0 <= dt <= DELTA_LIMIT,
    ;
    lemma_div_is_ordered(abs_val(v) * dt, SPEED_LIMIT as int * DELTA_LIMIT as int, m);
    assert(SPEED_LIMIT as int * DELTA_LIMIT as int / m == COORD_LIMIT);
    lemma_div_is_ordered(0, abs_val(v) * dt, m);
}

/// One motion step as executable code.
pub fn scale_by_delta(v: i64, dt: u64) -> (r: i64)
    requires
        -SPEED_LIMIT <= v <= SPEED_LIMIT,
        dt <= DELTA_LIMIT,
    ensures
        r == motion_step(v as int, dt as int),
        -COORD_LIMIT <= r <= COORD_LIMIT,
{
    proof {
        lemma_step_bounded(v as int, dt as int);
    }
    if v >= 0 {
        proof {
            assert((v as u64) as int * dt as int <= SPEED_LIMIT as int * DELTA_LIMIT as int)
                by (nonlinear_arith)
                requires
                    0 <= (v as u64) as int <= SPEED_LIMIT,
                    0 <= dt as int <= DELTA_LIMIT,
            ;
        }
        let m: u64 = (v as u64) * dt;
        (m / MICROS_PER_SEC) as i64
    } else {
        let neg: i64 = -v;
        proof {
            assert((neg as u64) as int * dt as int <= SPEED_LIMIT as int * DELTA_LIMIT as int)
                by (nonlinear_arith)
                requires
                    0 <= (neg as u64) as int <= SPEED_LIMIT,
                    0 <= dt as int <= DELTA_LIMIT,
            ;
        }
        let m: u64 = (neg as u64) * dt;
        -((m / MICROS_PER_SEC) as i64)
    }
}

/// A coordinate advanced by one motion step, saturated at the record limit.
pub fn advance_coord(p: i64, v: i64, dt: u64) -> (r: i64)
    requires
        -COORD_LIMIT <= p <= COORD_LIMIT,
        -SPEED_LIMIT <= v <= SPEED_LIMIT,
        dt <= DELTA_LIMIT,
    ensures
        r == advanced(p as int, v as int, dt as int),
        -COORD_LIMIT <= r <= COORD_LIMIT,
{
    let step = scale_by_delta(v, dt);
    let moved = p + step;
    if moved < -COORD_LIMIT {
        -COORD_LIMIT
    } else if moved > COORD_LIMIT {
        COORD_LIMIT
    } else {
        moved
    }
}

/// A velocity reduced by gravity for `dt` microseconds, saturated at the
/// speed limit.
pub fn apply_gravity(v: i64, g: i64, dt: u64) -> (r: i64)
    requires
        -SPEED_LIMIT <= v <= SPEED_LIMIT,
        0 <= g <= SPEED_LIMIT,
        dt <= DELTA_LIMIT,
    ensures
        r == decelerated(v as int, g as int, dt as int),
        -SPEED_LIMIT <= r <= SPEED_LIMIT,
{
    let step = scale_by_delta(g, dt);
    let slowed = v - step;
    if slowed < -SPEED_LIMIT {
        -SPEED_LIMIT
    } else if slowed > SPEED_LIMIT {
        SPEED_LIMIT
    } else {
        slowed
    }
}

/// A velocity increased by acceleration `g` for `dt` microseconds,
/// saturated at the speed limit.
pub open spec fn boosted(v: int, g: int, dt: int) -> int {
    clamped(-SPEED_LIMIT as int, v + motion_step(g, dt), SPEED_LIMIT as int)
}

pub fn apply_boost(v: i64, g: i64, dt: u64) -> (r: i64)
    requires
        -SPEED_LIMIT <= v <= SPEED_LIMIT,
        0 <= g <= SPEED_LIMIT,
        dt <= DELTA_LIMIT,
    ensures
        r == boosted(v as int, g as int, dt as int),
        -SPEED_LIMIT <= r <= SPEED_LIMIT,
{
    let step = scale_by_delta(g, dt);
    let sped = v + step;
    if sped < -SPEED_LIMIT {
        -SPEED_LIMIT
    } else if sped > SPEED_LIMIT {
        SPEED_LIMIT
    } else {
        sped
    }
}

/// A value saturated at the speed limit.
pub fn clamp_speed(x: i64) -> (r: i64)
    requires
        x > i64::MIN,
    ensures
        r == clamped(-SPEED_LIMIT as int, x as int, SPEED_LIMIT as int),
        -SPEED_LIMIT <= r <= SPEED_LIMIT,
{
    if x < -SPEED_LIMIT {
        -SPEED_LIMIT
    } else if x > SPEED_LIMIT {
        SPEED_LIMIT
    } else {
        x
    }
}

/// A milli-unit coordinate rounded to the nearest whole unit (half rounds
/// up), still in milli-units.
pub open spec fn round_to_unit(y: int) -> int {
    ((y + 500) / 1000) * 1000
}

/// How rounding compares against a whole-unit threshold `f`.
pub proof fn lemma_round_cmp(y: int, f: int)
    requires
        f % 1000 == 0,
    ensures
        (round_to_unit(y) >= f) <==> (y + 500 >= f),
        (round_to_unit(y) < f) <==> (y + 500 < f),
        (round_to_unit(y) > f) <==> (y + 500 >= f + 1000),
        (round_to_unit(y) == f) <==> (f <= y + 500 < f + 1000),
{
    lemma_fundamental_div_mod(y + 500, 1000);
    lemma_mod_division_less_than_divisor(y + 500, 1000);
    lemma_fundamental_div_mod(f, 1000);
    let q = (y + 500) / 1000;
    let k = f / 1000;
    assert(f == 1000 * k);
    assert(round_to_unit(y) == q * 1000);
    assert(y + 500 == 1000 * q + (y + 500) % 1000);
    assert(q * 1000 >= 1000 * k <==> q >= k) by (nonlinear_arith);
    assert(q * 1000 >= 1000 * (k + 1) <==> q >= k + 1) by (nonlinear_arith);
    if y + 500 >= f {
        assert(1000 * q > 1000 * k - 1000);
        assert(q > k - 1) by (nonlinear_arith)
            requires
                1000 * q > 1000 * k - 1000,
        ;
    }
    if y + 500 >= f + 1000 {
        assert(1000 * q > 1000 * k);
        assert(q > k) by (nonlinear_arith)
            requires
                1000 * q > 1000 * k,
        ;
    }
    if q >= k {
        assert(1000 * q >= 1000 * k) by (nonlinear_arith)
            requires
                q >= k,
        ;
    }
    if q >= k + 1 {
        assert(1000 * q >= 1000 * (k + 1)) by (nonlinear_arith)
            requires
                q >= k + 1,
        ;
    }
}

/// Half of a nonnegative extent, rounded down.
pub fn half_extent(x: i64) -> (r: i64)
    requires
        0 <= x,
    ensures
        r == x as int / 2,
{
    ((x as u64) / 2) as i64
}

/// An extent multiplied by a per-mille scale factor, rounded down.
pub fn scaled_extent(x: i64, scale: i64) -> (r: i64)
    requires
        0 <= x <= EXTENT_LIMIT,
        0 <= scale <= SCALE_LIMIT,
    ensures
        r == x as int * scale as int / 1000,
        0 <= r <= EXTENT_LIMIT * SCALE_LIMIT / 1000,
{
    proof {
        assert((x as u64) as int * (scale as u64) as int
            <= EXTENT_LIMIT as int * SCALE_LIMIT as int) by (nonlinear_arith)
            requires
                0 <= (x as u64) as int <= EXTENT_LIMIT,
                0 <= (scale as u64) as int <= SCALE_LIMIT,
        ;
    }
    let m: u64 = (x as u64) * (scale as u64);
    proof {
        lemma_div_is_ordered(m as int, EXTENT_LIMIT as int * SCALE_LIMIT as int, 1000);
        lemma_div_is_ordered(0, m as int, 1000);
    }
    (m / 1000) as i64
}

/// `n` is the ceiling of the square root of `x`.
pub open spec fn is_sqrt_ceil(x: int, n: int) -> bool {
    &&& 0 <= n
    &&& x <= n * n
    &&& n > 0 ==> (n - 1) * (n - 1) < x
}

/// The ceiling of the square root, as a spec-level value.
pub open spec fn sqrt_ceil(x: int) -> int {
    choose|n: int| is_sqrt_ceil(x, n)
}

/// Every nonnegative integer has a square-root ceiling.
pub proof fn lemma_sqrt_ceil_exists(x: int)
    requires
        0 <= x,
    ensures
        is_sqrt_ceil(x, sqrt_ceil(x)),
    decreases x,
{
    if x == 0 {
        assert(is_sqrt_ceil(0, 0));
    } else {
        lemma_sqrt_ceil_exists(x - 1);
        let m = sqrt_ceil(x - 1);
        if x <= m * m {
            assert(is_sqrt_ceil(x, m));
        } else {
            assert((m + 1 - 1) * (m + 1 - 1) < x);
            assert(x <= (m + 1) * (m + 1)) by (nonlinear_arith)
                requires
                    0 <= m,
                    x <= m * m + 1,
            ;
            assert(is_sqrt_ceil(x, m + 1));
        }
    }
    assert(exists|n: int| is_sqrt_ceil(x, n));
}

pub proof fn lemma_sqrt_ceil_unique(x: int, n: int)
    requires
        is_sqrt_ceil(x, n),
    ensures
        n == sqrt_ceil(x),
{
    assert(is_sqrt_ceil(x, n));
    let m = sqrt_ceil(x);
    assert(is_sqrt_ceil(x, m));
    assert(n == m) by (nonlinear_arith)
        requires
            is_sqrt_ceil(x, n),
            is_sqrt_ceil(x, m),
    ;
}

/// Largest `r` with `r * r <= x`.
fn isqrt_floor(x: u64) -> (r: u64)
    ensures
        r * r <= x,
        x < (r + 1) * (r + 1),
        r < 0x1_0000_0000,
{
    let mut lo: u64 = 0;
    let mut hi: u64 = 0x1_0000_0000;
    proof {
        assert(0x1_0000_0000int * 0x1_0000_0000int > u64::MAX as int);
    }
    while lo + 1 < hi
        invariant
            lo < hi <= 0x1_0000_0000,
            lo * lo <= x,
            x < hi * hi,
        decreases hi - lo,
    {
        let mid = lo + (hi - lo) / 2;
        proof {
            assert(mid as int * mid as int <= 0x1_0000_0000int * 0x1_0000_0000int)
                by (nonlinear_arith)
                requires
                    0 <= mid as int <= 0x1_0000_0000int,
            ;
        }
        if (mid as u128) * (mid as u128) <= (x as u128) {
            lo = mid;
        } else {
            hi = mid;
        }
    }
    lo
}

/// The ceiling of the square root, as executable code.
pub fn isqrt_ceil(x: u64) -> (r: u64)
    ensures
        is_sqrt_ceil(x as int, r as int),
        r as int == sqrt_ceil(x as int),
        r <= 0x1_0000_0000,
{
    let f = isqrt_floor(x);
    proof {
        assert(f as int * f as int <= 0x1_0000_0000int * 0x1_0000_0000int) by (nonlinear_arith)
            requires
                0 <= f as int <= 0x1_0000_0000int,
        ;
    }
    let r = if (f as u128) * (f as u128) == (x as u128) {
        f
    } else {
        f + 1
    };
    proof {
        if f as int * f as int == x as int {
            if f > 0 {
                assert((f as int - 1) * (f as int - 1) < f as int * f as int)
                    by (nonlinear_arith)
                    requires
                        1 <= f as int,
                ;
            }
            assert(is_sqrt_ceil(x as int, f as int));
        } else {
            assert(is_sqrt_ceil(x as int, f as int + 1));
        }
        lemma_sqrt_ceil_unique(x as int, r as int);
    }
    r
}

/// Velocity of a reflected shuriken: `speed` redirected along `(dx, dy)`,
/// each component truncated toward zero.  A zero offset sends the shuriken
/// along the positive x axis.
pub open spec fn reflection_velocity_x(dx: int, dy: int, speed: int) -> int {
    let n = sqrt_ceil(dx * dx + dy * dy);
    if n == 0 {
        speed
    } else if dx >= 0 {
        speed * dx / n
    } else {
        -(speed * (-dx) / n)
    }
}

pub open spec fn reflection_velocity_y(dx: int, dy: int, speed: int) -> int {
    let n = sqrt_ceil(dx * dx + dy * dy);
    if n == 0 {
        0
    } else if dy >= 0 {
        speed * dy / n
    } else {
        -(speed * (-dy) / n)
    }
}

/// The reflected velocity is deterministic in the two positions and the
/// cached speed, and its magnitude never exceeds that speed:
/// `vx * vx + vy * vy <= speed * speed`, for every offset.
pub proof fn lemma_reflection_speed_bound(dx: int, dy: int, speed: int)
    requires
        0 <= speed,
    ensures
        reflection_velocity_x(dx, dy, speed) * reflection_velocity_x(dx, dy, speed)
            + reflection_velocity_y(dx, dy, speed) * reflection_velocity_y(dx, dy, speed)
            <= speed * speed,
{
    let s = dx * dx + dy * dy;
    assert(0 <= dx * dx && 0 <= dy * dy) by (nonlinear_arith);
    lemma_sqrt_ceil_exists(s);
    let n = sqrt_ceil(s);
    let vx = reflection_velocity_x(dx, dy, speed);
    let vy = reflection_velocity_y(dx, dy, speed);
    if n == 0 {
        assert(vx == speed && vy == 0);
    } else {
        let a = abs_val(dx);
        let b = abs_val(dy);
        assert(a * a == dx * dx) by (nonlinear_arith)
            requires
                a == dx || a == -dx,
        ;
        assert(b * b == dy * dy) by (nonlinear_arith)
            requires
                b == dy || b == -dy,
        ;
        let q1 = speed * a / n;
        let q2 = speed * b / n;
        assert(vx == q1 || vx == -q1);
        assert(vy == q2 || vy == -q2);
        assert(0 <= speed * a && 0 <= speed * b) by (nonlinear_arith)
            requires
                0 <= speed && 0 <= a && 0 <= b,
        ;
        lemma_div_pos_is_pos(speed * a, n);
        lemma_div_pos_is_pos(speed * b, n);
        lemma_fundamental_div_mod(speed * a, n);
        lemma_mod_division_less_than_divisor(speed * a, n);
        lemma_fundamental_div_mod(speed * b, n);
        lemma_mod_division_less_than_divisor(speed * b, n);
        assert(n * q1 <= speed * a);
        assert(n * q2 <= speed * b);
        assert(vx * vx + vy * vy <= speed * speed) by (nonlinear_arith)
            requires
                0 < n,
                0 <= q1,
                0 <= q2,
                n * q1 <= speed * a,
                n * q2 <= speed * b,
                a * a + b * b <= n * n,
                0 <= speed,
                vx == q1 || vx == -q1,
                vy == q2 || vy == -q2,
        ;
    }
}

/// A scaled ratio `speed * num / den` with `0 <= num <= den`, so the result
/// never exceeds `speed`.
fn scaled_ratio(speed: i64, num: u64, den: u64) -> (r: i64)
    requires
        0 <= speed <= SPEED_LIMIT,
        num <= den,
        0 < den <= 0x1_0000_0000,
    ensures
        r == speed as int * num as int / den as int,
        0 <= r <= speed,
{
    proof {
        assert((speed as u64) as int * num as int <= (speed as u64) as int * den as int)
            by (nonlinear_arith)
            requires
                0 <= (speed as u64) as int,
                0 <= num as int <= den as int,
        ;
        assert((speed as u64) as int * num as int <= u64::MAX as int) by (nonlinear_arith)
            requires
                0 <= (speed as u64) as int <= SPEED_LIMIT,
                0 <= num as int <= 0x1_0000_0001int,
                SPEED_LIMIT as int * 0x1_0000_0001int <= u64::MAX as int,
        ;
    }
    let m: u64 = (speed as u64) * num;
    proof {
        lemma_div_is_ordered(m as int, speed as int * den as int, den as int);
        lemma_div_multiples_vanish(speed as int, den as int);
        lemma_div_is_ordered(0, m as int, den as int);
    }
    (m / den) as i64
}

/// Magnitude of a bounded offset component.
fn abs_offset(d: i64) -> (r: u64)
    requires
        -2 * COORD_LIMIT <= d <= 2 * COORD_LIMIT,
    ensures
        r == abs_val(d as int),
        r <= 2 * COORD_LIMIT,
{
    if d >= 0 {
        d as u64
    } else {
        (-d) as u64
    }
}

/// Velocity of a reflected shuriken: magnitude `speed` redirected along the
/// offset `(dx, dy)` from the shuriken to the player.
pub fn reflected_velocity(dx: i64, dy: i64, speed: i64) -> (v: Vec2)
    requires
        -2 * COORD_LIMIT <= dx <= 2 * COORD_LIMIT,
        -2 * COORD_LIMIT <= dy <= 2 * COORD_LIMIT,
        0 <= speed <= SPEED_LIMIT,
    ensures
        v.x == reflection_velocity_x(dx as int, dy as int, speed as int),
        v.y == reflection_velocity_y(dx as int, dy as int, speed as int),
        -SPEED_LIMIT <= v.x <= SPEED_LIMIT,
        -SPEED_LIMIT <= v.y <= SPEED_LIMIT,
{
    let ax = abs_offset(dx);
    let ay = abs_offset(dy);
    proof {
        assert(ax as int * ax as int + ay as int * ay as int
            <= 2 * ((2 * COORD_LIMIT as int) * (2 * COORD_LIMIT as int))) by (nonlinear_arith)
            requires
                0 <= ax as int <= 2 * COORD_LIMIT as int,
                0 <= ay as int <= 2 * COORD_LIMIT as int,
        ;
        assert(2 * ((2 * COORD_LIMIT as int) * (2 * COORD_LIMIT as int)) <= u64::MAX as int)
            by (nonlinear_arith);
    }
    let sq: u64 = ax * ax + ay * ay;
    proof {
        assert(ax as int * ax as int == dx as int * dx as int) by (nonlinear_arith)
            requires
                ax as int == dx as int || ax as int == -(dx as int),
        ;
        assert(ay as int * ay as int == dy as int * dy as int) by (nonlinear_arith)
            requires
                ay as int == dy as int || ay as int == -(dy as int),
        ;
    }
    let n = isqrt_ceil(sq);
    if n == 0 {
        proof {
            assert(ax == 0 && ay == 0) by (nonlinear_arith)
                requires
                    is_sqrt_ceil(ax as int * ax as int + ay as int * ay as int, 0),
                    0 <= ax,
                    0 <= ay,
            ;
        }
        Vec2 { x: speed, y: 0 }
    } else {
        proof {
            assert(ax <= n && ay <= n) by (nonlinear_arith)
                requires
                    is_sqrt_ceil(ax as int * ax as int + ay as int * ay as int, n as int),
                    0 <= ax,
                    0 <= ay,
                    0 < n,
            ;
        }
        let mx = scaled_ratio(speed, ax, n);
        let my = scaled_ratio(speed, ay, n);
        let vx = if dx >= 0 { mx } else { -mx };
        let vy = if dy >= 0 { my } else { -my };
        Vec2 { x: vx, y: vy }
    }
}

} // verus!
