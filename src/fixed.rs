use vstd::prelude::*;

verus! {

/// Largest magnitude a coordinate may take, in milli-pixels.
pub const COORD_LIMIT: i64 = 1_000_000_000_000;

/// Largest magnitude of a velocity component, in milli-pixels per millisecond.
pub const SPEED_LIMIT: i64 = 1_000_000;

/// Longest simulation step, in milliseconds.
pub const STEP_LIMIT: u64 = 1_000_000;

/// Milli-degrees in a full turn.
pub const FULL_TURN: i64 = 360_000;

/// Milli-degrees in a half turn.
pub const HALF_TURN: i64 = 180_000;

/// Milli-degrees in a quarter turn.
pub const QUARTER_TURN: i64 = 90_000;

/// A point or displacement in the playfield, in milli-pixels.
#[derive(Debug, Clone, Copy, PartialEq, Eq, Structural)]
pub struct Vec2 {
    pub x: i64,
    pub y: i64,
}

impl Vec2 {
    pub open spec fn in_field(self) -> bool {
        -COORD_LIMIT <= self.x <= COORD_LIMIT && -COORD_LIMIT <= self.y <= COORD_LIMIT
    }

    pub open spec fn is_velocity(self) -> bool {
        -SPEED_LIMIT <= self.x <= SPEED_LIMIT && -SPEED_LIMIT <= self.y <= SPEED_LIMIT
    }

    pub fn new(x: i64, y: i64) -> (r: Vec2)
        ensures
            r.x == x,
            r.y == y,
    {
        Vec2 { x, y }
    }
}

pub open spec fn clamp_int(v: int, lo: int, hi: int) -> int {
    if v < lo {
        lo
    } else if v > hi {
        hi
    } else {
        v
    }
}

/// Clamps `v` into `[lo, hi]`.
pub fn clamp_i64(v: i64, lo: i64, hi: i64) -> (r: i64)
    requires
        lo <= hi,
    ensures
        r == clamp_int(v as int, lo as int, hi as int),
        lo <= r <= hi,
{
    if v < lo {
        lo
    } else if v > hi {
        hi
    } else {
        v
    }
}

/// Division rounding toward zero, as integer division on machine integers does.
pub open spec fn div_toward_zero(n: int, d: int) -> int {
    if n >= 0 {
        n / d
    } else {
        -((-n) / d)
    }
}

/// Dividing by `d` something at most `d * b` in magnitude gives at most `b` in magnitude.
pub proof fn lemma_div_toward_zero_scaled(n: int, d: int, b: int)
    requires
        d > 0,
        b >= 0,
        -(d * b) <= n <= d * b,
    ensures
        -b <= div_toward_zero(n, d) <= b,
{
    if n >= 0 {
        assert(n / d <= b) by (nonlinear_arith)
            requires
                0 <= n <= d * b,
                d > 0,
        ;
        assert(n / d >= 0) by (nonlinear_arith)
            requires
                0 <= n,
                d > 0,
        ;
    } else {
        assert((-n) / d <= b) by (nonlinear_arith)
            requires
                0 <= -n <= d * b,
                d > 0,
        ;
        assert((-n) / d >= 0) by (nonlinear_arith)
            requires
                0 <= -n,
                d > 0,
        ;
    }
}

pub proof fn lemma_div_toward_zero_bound(n: int, d: int, bound: int)
    requires
        d > 0,
        -bound <= n <= bound,
        bound >= 0,
    ensures
        -bound <= div_toward_zero(n, d) <= bound,
        n >= 0 ==> div_toward_zero(n, d) >= 0,
        n <= 0 ==> div_toward_zero(n, d) <= 0,
{
    if n >= 0 {
        assert(n / d <= n) by (nonlinear_arith)
            requires
                n >= 0,
                d > 0,
        ;
        assert(n / d >= 0) by (nonlinear_arith)
            requires
                n >= 0,
                d > 0,
        ;
    } else {
        assert((-n) / d <= -n) by (nonlinear_arith)
            requires
                n < 0,
                d > 0,
        ;
        assert((-n) / d >= 0) by (nonlinear_arith)
            requires
                n < 0,
                d > 0,
        ;
    }
}

pub fn div_toward_zero_i128(n: i128, d: i128) -> (r: i128)
    requires
        d > 0,
        -0x1000_0000_0000_0000_0000_0000_0000 <= n <= 0x1000_0000_0000_0000_0000_0000_0000,
    ensures
        r == div_toward_zero(n as int, d as int),
{
    if n >= 0 {
        n / d
    } else {
        let m: i128 = -n;
        let q: i128 = m / d;
        -q
    }
}

/// Reduces an angle into `[0, FULL_TURN)`.
pub open spec fn wrap_angle_spec(a: int) -> int {
    a % (FULL_TURN as int)
}

/// Sine of an angle in `[0, HALF_TURN]`, per-mille, by Bhaskara's rational approximation.
pub open spec fn half_sine_spec(x: int) -> int {
    (4000 * x * (HALF_TURN - x)) / (40_500_000_000 - x * (HALF_TURN - x))
}

/// Sine of an angle in milli-degrees, per-mille.
pub open spec fn sine_spec(a: int) -> int {
    let w = wrap_angle_spec(a);
    if w <= HALF_TURN {
        half_sine_spec(w)
    } else {
        -half_sine_spec(w - HALF_TURN)
    }
}

/// Cosine of an angle in milli-degrees, per-mille.
pub open spec fn cosine_spec(a: int) -> int {
    sine_spec(a + QUARTER_TURN)
}

pub fn wrap_angle(a: i64) -> (r: i64)
    ensures
        r == wrap_angle_spec(a as int),
        0 <= r < FULL_TURN,
{
    if a >= 0 {
        a % FULL_TURN
    } else {
        let m: i64 = (-(a as i128) % (FULL_TURN as i128)) as i64;
        proof {
            let n: int = -(a as int);
            assert(m == n % 360_000);
            assert(n == 360_000 * (n / 360_000) + m) by (nonlinear_arith)
                requires
                    m == n % 360_000,
            ;
            assert((a as int) == 360_000 * (-(n / 360_000)) - m);
            if m == 0 {
                assert((a as int) == 360_000 * (-(n / 360_000)));
                vstd::arithmetic::div_mod::lemma_mod_multiples_basic(-(n / 360_000), 360_000);
            } else {
                assert((a as int) == 360_000 * (-(n / 360_000) - 1) + (360_000 - m));
                vstd::arithmetic::div_mod::lemma_mod_multiples_vanish(
                    -(n / 360_000) - 1,
                    360_000 - m,
                    360_000,
                );
                vstd::arithmetic::div_mod::lemma_small_mod((360_000 - m) as nat, 360_000);
            }
        }
        if m == 0 {
            0
        } else {
            FULL_TURN - m
        }
    }
}

fn half_sine(x: i64) -> (r: i64)
    requires
        0 <= x <= HALF_TURN,
    ensures
        r == half_sine_spec(x as int),
        0 <= r <= 1000,
{
    assert(0 <= (x as int) * (180_000 - x) <= 8_100_000_000) by (nonlinear_arith)
        requires
            0 <= x <= 180_000,
    ;
    let p: i64 = x * (HALF_TURN - x);
    let num: i64 = 4000 * p;
    let den: i64 = 40_500_000_000 - p;
    assert(num / den <= 1000) by (nonlinear_arith)
        requires
            num == 4000 * p,
            den == 40_500_000_000 - p,
            0 <= p <= 8_100_000_000,
    ;
    assert(num / den >= 0) by (nonlinear_arith)
        requires
            num >= 0,
            den > 0,
    ;
    assert(4000 * (x as int) * (HALF_TURN - x) == num) by (nonlinear_arith)
        requires
            num == 4000 * p,
            p == x * (HALF_TURN - x),
    ;
    num / den
}

/// Sine of an angle in milli-degrees, per-mille.
pub fn sine(a: i64) -> (r: i64)
    ensures
        r == sine_spec(a as int),
        -1000 <= r <= 1000,
{
    let w = wrap_angle(a);
    if w <= HALF_TURN {
        half_sine(w)
    } else {
        let h = half_sine(w - HALF_TURN);
        -h
    }
}

/// Cosine of an angle in milli-degrees, per-mille.
pub fn cosine(a: i64) -> (r: i64)
    requires
        a <= i64::MAX - QUARTER_TURN,
    ensures
        r == cosine_spec(a as int),
        -1000 <= r <= 1000,
{
    sine(a + QUARTER_TURN)
}

pub open spec fn is_floor_sqrt(n: int, r: int) -> bool {
    r >= 0 && r * r <= n < (r + 1) * (r + 1)
}

/// The integer square root of `n`, rounded down.
pub open spec fn floor_sqrt(n: int) -> int {
    choose|r: int| is_floor_sqrt(n, r)
}

proof fn lemma_floor_sqrt_unique(n: int, a: int, b: int)
    requires
        is_floor_sqrt(n, a),
        is_floor_sqrt(n, b),
    ensures
        a == b,
{
    if a < b {
        assert((a + 1) * (a + 1) <= b * b) by (nonlinear_arith)
            requires
                0 <= a < b,
        ;
    } else if b < a {
        assert((b + 1) * (b + 1) <= a * a) by (nonlinear_arith)
            requires
                0 <= b < a,
        ;
    }
}

/// Integer square root by bisection.
pub fn isqrt(n: u128) -> (r: u64)
    requires
        n < 0x10_0000_0000_0000_0000_0000_0000,
    ensures
        r == floor_sqrt(n as int),
        is_floor_sqrt(n as int, r as int),
{
    let mut lo: u128 = 0;
    let mut hi: u128 = 0x4_0000_0000_0000;
    assert(hi * hi == 0x10_0000_0000_0000_0000_0000_0000);
    while hi - lo > 1
        invariant
            lo < hi <= 0x4_0000_0000_0000,
            lo * lo <= n < hi * hi,
        decreases hi - lo,
    {
        let mid: u128 = lo + (hi - lo) / 2;
        assert(mid * mid <= 0x10_0000_0000_0000_0000_0000_0000) by (nonlinear_arith)
            requires
                mid <= 0x4_0000_0000_0000,
        ;
        if mid * mid <= n {
            lo = mid;
        } else {
            hi = mid;
        }
    }
    assert(hi == lo + 1);
    proof {
        assert(is_floor_sqrt(n as int, lo as int));
        lemma_floor_sqrt_unique(n as int, lo as int, floor_sqrt(n as int));
    }
    lo as u64
}

/// Velocity of magnitude `speed` pointing from the origin along `(dx, dy)`, or straight
/// down when the direction is degenerate.
pub open spec fn aimed_velocity_spec(dx: int, dy: int, speed: int) -> Vec2 {
    let len = floor_sqrt(dx * dx + dy * dy);
    if len == 0 {
        Vec2 { x: 0, y: (-speed) as i64 }
    } else {
        Vec2 {
            x: div_toward_zero(dx * speed, len) as i64,
            y: div_toward_zero(dy * speed, len) as i64,
        }
    }
}

proof fn lemma_unit_component(d: int, len: int, n: int, speed: int)
    requires
        0 <= speed,
        len > 0,
        is_floor_sqrt(n, len),
        n >= d * d,
    ensures
        -speed <= div_toward_zero(d * speed, len) <= speed,
{
    assert(d * d < (len + 1) * (len + 1));
    assert(-len <= d <= len) by (nonlinear_arith)
        requires
            d * d < (len + 1) * (len + 1),
            len >= 0,
    ;
    if d >= 0 {
        assert((d * speed) / len <= speed) by (nonlinear_arith)
            requires
                0 <= d <= len,
                speed >= 0,
                len > 0,
        ;
        assert((d * speed) / len >= 0) by (nonlinear_arith)
            requires
                0 <= d,
                speed >= 0,
                len > 0,
        ;
    } else {
        assert(-(d * speed) == (-d) * speed) by (nonlinear_arith);
        assert(((-d) * speed) / len <= speed) by (nonlinear_arith)
            requires
                0 <= -d <= len,
                speed >= 0,
                len > 0,
        ;
        assert(((-d) * speed) / len >= 0) by (nonlinear_arith)
            requires
                0 <= -d,
                speed >= 0,
                len > 0,
        ;
    }
}

/// A velocity of magnitude about `speed` aimed from `from` toward `to`; straight down
/// when the two points coincide.
pub fn aimed_velocity(from: Vec2, to: Vec2, speed: i64) -> (r: Vec2)
    requires
        from.in_field(),
        to.in_field(),
        0 <= speed <= SPEED_LIMIT,
    ensures
        r == aimed_velocity_spec(to.x - from.x, to.y - from.y, speed as int),
        r.is_velocity(),
{
    let dx: i128 = (to.x as i128) - (from.x as i128);
    let dy: i128 = (to.y as i128) - (from.y as i128);
    assert(0 <= dx * dx <= 4 * COORD_LIMIT * COORD_LIMIT) by (nonlinear_arith)
        requires
            -2 * COORD_LIMIT <= dx <= 2 * COORD_LIMIT,
    ;
    assert(0 <= dy * dy <= 4 * COORD_LIMIT * COORD_LIMIT) by (nonlinear_arith)
        requires
            -2 * COORD_LIMIT <= dy <= 2 * COORD_LIMIT,
    ;
    let n: u128 = (dx * dx + dy * dy) as u128;
    let len = isqrt(n);
    if len == 0 {
        Vec2 { x: 0, y: -speed }
    } else {
        proof {
            lemma_unit_component(dx as int, len as int, n as int, speed as int);
            lemma_unit_component(dy as int, len as int, n as int, speed as int);
        }
        assert(-2 * COORD_LIMIT * SPEED_LIMIT <= dx * speed <= 2 * COORD_LIMIT * SPEED_LIMIT)
            by (nonlinear_arith)
            requires
                -2 * COORD_LIMIT <= dx <= 2 * COORD_LIMIT,
                0 <= speed <= SPEED_LIMIT,
        ;
        assert(-2 * COORD_LIMIT * SPEED_LIMIT <= dy * speed <= 2 * COORD_LIMIT * SPEED_LIMIT)
            by (nonlinear_arith)
            requires
                -2 * COORD_LIMIT <= dy <= 2 * COORD_LIMIT,
                0 <= speed <= SPEED_LIMIT,
        ;
        let vx = div_toward_zero_i128(dx * (speed as i128), len as i128);
        let vy = div_toward_zero_i128(dy * (speed as i128), len as i128);
        Vec2 { x: vx as i64, y: vy as i64 }
    }
}

/// Velocity of magnitude `speed` (per-mille precision) at angle `a`.
pub open spec fn polar_velocity_spec(a: int, speed: int) -> Vec2 {
    Vec2 {
        x: div_toward_zero(speed * cosine_spec(a), 1000) as i64,
        y: div_toward_zero(speed * sine_spec(a), 1000) as i64,
    }
}

/// Velocity of magnitude `speed` at angle `a` (milli-degrees, counter-clockwise from +x).
pub fn polar_velocity(a: i64, speed: i64) -> (r: Vec2)
    requires
        -FULL_TURN * 1000 <= a <= FULL_TURN * 1000,
        0 <= speed <= SPEED_LIMIT,
    ensures
        r == polar_velocity_spec(a as int, speed as int),
        r.is_velocity(),
{
    let c = cosine(a);
    let s = sine(a);
    assert(-SPEED_LIMIT * 1000 <= speed * c <= SPEED_LIMIT * 1000) by (nonlinear_arith)
        requires
            0 <= speed <= SPEED_LIMIT,
            -1000 <= c <= 1000,
    ;
    assert(-SPEED_LIMIT * 1000 <= speed * s <= SPEED_LIMIT * 1000) by (nonlinear_arith)
        requires
            0 <= speed <= SPEED_LIMIT,
            -1000 <= s <= 1000,
    ;
    proof {
        lemma_div_toward_zero_bound(speed * c, 1000, SPEED_LIMIT * 1000);
        lemma_div_toward_zero_bound(speed * s, 1000, SPEED_LIMIT * 1000);
        if speed * c >= 0 {
            assert((speed * c) / 1000 <= SPEED_LIMIT);
        } else {
            assert((-(speed * c)) / 1000 <= SPEED_LIMIT);
        }
        if speed * s >= 0 {
            assert((speed * s) / 1000 <= SPEED_LIMIT);
        } else {
            assert((-(speed * s)) / 1000 <= SPEED_LIMIT);
        }
    }
    let vx = div_toward_zero_i128((speed as i128) * (c as i128), 1000);
    let vy = div_toward_zero_i128((speed as i128) * (s as i128), 1000);
    Vec2 { x: vx as i64, y: vy as i64 }
}

/// `a + b` clamped to the coordinate range.
pub open spec fn shift_coord_spec(a: int, b: int) -> int {
    clamp_int(a + b, -COORD_LIMIT as int, COORD_LIMIT as int)
}

/// Moves a coordinate by `b`, keeping it within the coordinate range.
pub fn shift_coord(a: i64, b: i64) -> (r: i64)
    requires
        -COORD_LIMIT <= a <= COORD_LIMIT,
        -COORD_LIMIT * 1000 <= b <= COORD_LIMIT * 1000,
    ensures
        r == shift_coord_spec(a as int, b as int),
        -COORD_LIMIT <= r <= COORD_LIMIT,
{
    clamp_i64(a + b, -COORD_LIMIT, COORD_LIMIT)
}

/// The displacement `v * dt` of a velocity component over a step.
pub fn displacement(v: i64, dt: u64) -> (r: i64)
    requires
        -SPEED_LIMIT <= v <= SPEED_LIMIT,
        dt <= STEP_LIMIT,
    ensures
        r == v * dt,
        -COORD_LIMIT <= r <= COORD_LIMIT,
{
    assert(-COORD_LIMIT <= v * dt <= COORD_LIMIT) by (nonlinear_arith)
        requires
            -SPEED_LIMIT <= v <= SPEED_LIMIT,
            0 <= dt <= STEP_LIMIT,
    ;
    v * (dt as i64)
}

/// Moves a point by a velocity over a step, keeping it in the playfield.
pub open spec fn advance_spec(p: Vec2, v: Vec2, dt: int) -> Vec2 {
    Vec2 {
        x: shift_coord_spec(p.x as int, v.x * dt) as i64,
        y: shift_coord_spec(p.y as int, v.y * dt) as i64,
    }
}

pub fn advance(p: Vec2, v: Vec2, dt: u64) -> (r: Vec2)
    requires
        p.in_field(),
        v.is_velocity(),
        dt <= STEP_LIMIT,
    ensures
        r == advance_spec(p, v, dt as int),
        r.in_field(),
{
    let dx = displacement(v.x, dt);
    let dy = displacement(v.y, dt);
    Vec2 { x: shift_coord(p.x, dx), y: shift_coord(p.y, dy) }
}

/// Axis-aligned boxes given by centre and half extents touch or overlap.
pub open spec fn overlaps_spec(a: Vec2, a_half: Vec2, b: Vec2, b_half: Vec2) -> bool {
    abs_int(a.x - b.x) <= a_half.x + b_half.x && abs_int(a.y - b.y) <= a_half.y + b_half.y
}

pub open spec fn abs_int(v: int) -> int {
    if v < 0 {
        -v
    } else {
        v
    }
}

fn abs_diff(a: i64, b: i64) -> (r: i64)
    requires
        -COORD_LIMIT <= a <= COORD_LIMIT,
        -COORD_LIMIT <= b <= COORD_LIMIT,
    ensures
        r == abs_int(a - b),
{
    if a >= b {
        a - b
    } else {
        b - a
    }
}

/// Whether two axis-aligned boxes, each given by its centre and half extents, overlap.
pub fn overlaps(a: Vec2, a_half: Vec2, b: Vec2, b_half: Vec2) -> (r: bool)
    requires
        a.in_field(),
        b.in_field(),
        a_half.in_field(),
        b_half.in_field(),
    ensures
        r == overlaps_spec(a, a_half, b, b_half),
{
    abs_diff(a.x, b.x) <= a_half.x + b_half.x && abs_diff(a.y, b.y) <= a_half.y + b_half.y
}

} // verus!
