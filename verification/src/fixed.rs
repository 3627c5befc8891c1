//! Exact fixed-point arithmetic for the simulation.
//!
//! Positions and velocities are `i64` values scaled by [`FIXED_ONE`]
//! (one millionth of a world unit); times are `u64` nanosecond counts.
//! Every operation saturates at the `i64` range and is specified exactly,
//! so simulation runs are reproducible bit for bit.

use vstd::prelude::*;

verus! {

/// Fixed-point scale: this many raw units make one world unit.
pub const FIXED_ONE: i64 = 1_000_000;

/// Nanoseconds in one second.
pub const NANOS_PER_SEC: u64 = 1_000_000_000;

/// Half turn, in micro-radians (pi scaled by one million).
pub const PI_MICRO: u64 = 3_141_593;

/// Clamp a mathematical integer to the `i64` range.
pub open spec fn sat_i64(x: int) -> int {
    if x > i64::MAX {
        i64::MAX as int
    } else if x < i64::MIN {
        i64::MIN as int
    } else {
        x
    }
}

/// Clamp a mathematical integer to the `u64` range.
pub open spec fn sat_u64(x: int) -> int {
    if x > u64::MAX {
        u64::MAX as int
    } else if x < 0 {
        0
    } else {
        x
    }
}

/// Division that truncates toward zero, as the machine division does.
pub open spec fn div_trunc(a: int, d: int) -> int
    recommends
        d > 0,
{
    if a >= 0 {
        a / d
    } else {
        -((-a) / d)
    }
}

/// Magnitude of an `i64`, exact even for `i64::MIN`.
pub fn abs_u64(a: i64) -> (r: u64)
    ensures
        r == (if a >= 0 {
            a as int
        } else {
            -(a as int)
        }),
{
    if a >= 0 {
        a as u64
    } else if a == i64::MIN {
        9_223_372_036_854_775_808u64
    } else {
        (-a) as u64
    }
}

/// Saturating addition on `i64`.
pub fn add_i64_sat(a: i64, b: i64) -> (r: i64)
    ensures
        r == sat_i64(a + b),
{
    if b >= 0 {
        if a > i64::MAX - b {
            i64::MAX
        } else {
            a + b
        }
    } else {
        if a < i64::MIN - b {
            i64::MIN
        } else {
            a + b
        }
    }
}

/// Saturating subtraction on `i64`.
pub fn sub_i64_sat(a: i64, b: i64) -> (r: i64)
    ensures
        r == sat_i64(a - b),
{
    if b >= 0 {
        if a < i64::MIN + b {
            i64::MIN
        } else {
            a - b
        }
    } else {
        if a > i64::MAX + b {
            i64::MAX
        } else {
            a - b
        }
    }
}

/// Saturating subtraction on `u64` (clamps at zero).
pub fn sub_u64_sat(a: u64, b: u64) -> (r: u64)
    ensures
        r == sat_u64(a - b),
{
    if a < b {
        0
    } else {
        a - b
    }
}

/// Saturating addition on `u64`.
pub fn add_u64_sat(a: u64, b: u64) -> (r: u64)
    ensures
        r == sat_u64(a + b),
{
    if a > u64::MAX - b {
        u64::MAX
    } else {
        a + b
    }
}

/// Saturating multiplication on `u64`.
pub fn mul_u64_sat(a: u64, b: u64) -> (r: u64)
    ensures
        r == sat_u64(a * b),
{
    proof {
        lemma_mul_fits_u128(a as int, b as int);
    }
    let p: u128 = (a as u128) * (b as u128);
    if p > u64::MAX as u128 {
        u64::MAX
    } else {
        p as u64
    }
}

/// The product of two `u64`-sized values fits in a `u128`.
pub(crate) proof fn lemma_mul_fits_u128(a: int, b: int)
    requires
        0 <= a <= u64::MAX,
        0 <= b <= u64::MAX,
    ensures
        0 <= a * b <= u128::MAX,
{
    vstd::arithmetic::mul::lemma_mul_upper_bound(a, u64::MAX as int, b, u64::MAX as int);
    vstd::arithmetic::mul::lemma_mul_nonnegative(a, b);
}

/// Computes `a * b / d` exactly (truncating), saturating at the `i64` range.
pub fn mul_div_sat(a: i64, b: u64, d: u64) -> (r: i64)
    requires
        1 <= d,
    ensures
        r == sat_i64(div_trunc(a * b, d as int)),
{
    let neg: bool = a < 0;
    let aa_small: u64 = abs_u64(a);
    let aa: u128 = aa_small as u128;
    proof {
        lemma_mul_fits_u128(aa as int, b as int);
    }
    let q: u128 = (aa * (b as u128)) / (d as u128);
    proof {
        let ai = a as int;
        let bi = b as int;
        let m = (aa as int) * bi;
        if a < 0 {
            assert(ai * bi == -m) by (nonlinear_arith)
                requires
                    aa == -ai,
                    m == (aa as int) * bi,
            ;
            assert(div_trunc(ai * bi, d as int) == -(m / (d as int)));
        } else {
            assert(ai * bi == m);
        }
        assert(q == m / (d as int));
    }
    if neg {
        if q >= 9_223_372_036_854_775_808u128 {
            i64::MIN
        } else if q == 0 {
            0
        } else {
            -(q as i64)
        }
    } else {
        if q > i64::MAX as u128 {
            i64::MAX
        } else {
            q as i64
        }
    }
}

/// Computes `a * b / d` exactly (truncating), saturating at the `i64`
/// range, for two signed factors.
pub fn mul_div_i64_sat(a: i64, b: i64, d: u64) -> (r: i64)
    requires
        1 <= d,
    ensures
        r == sat_i64(div_trunc(a * b, d as int)),
{
    let neg: bool = (a < 0) != (b < 0);
    let aa_small: u64 = abs_u64(a);
    let bb_small: u64 = abs_u64(b);
    let aa: u128 = aa_small as u128;
    let bb: u128 = bb_small as u128;
    proof {
        lemma_mul_fits_u128(aa as int, bb as int);
    }
    let q: u128 = (aa * bb) / (d as u128);
    proof {
        let ai = a as int;
        let bi = b as int;
        let m = (aa as int) * (bb as int);
        if a >= 0 && b >= 0 {
            assert(ai * bi == m) by (nonlinear_arith)
                requires
                    aa == ai,
                    bb == bi,
                    m == (aa as int) * (bb as int),
            ;
        } else if a < 0 && b < 0 {
            assert(ai * bi == m) by (nonlinear_arith)
                requires
                    aa == -ai,
                    bb == -bi,
                    m == (aa as int) * (bb as int),
            ;
        } else if a < 0 {
            assert(ai * bi == -m) by (nonlinear_arith)
                requires
                    aa == -ai,
                    bb == bi,
                    m == (aa as int) * (bb as int),
            ;
        } else {
            assert(ai * bi == -m) by (nonlinear_arith)
                requires
                    aa == ai,
                    bb == -bi,
                    m == (aa as int) * (bb as int),
            ;
        }
        if neg {
            assert(div_trunc(ai * bi, d as int) == -(m / (d as int)));
        }
        assert(q == m / (d as int));
    }
    if neg {
        if q >= 9_223_372_036_854_775_808u128 {
            i64::MIN
        } else if q == 0 {
            0
        } else {
            -(q as i64)
        }
    } else {
        if q > i64::MAX as u128 {
            i64::MAX
        } else {
            q as i64
        }
    }
}

/// A two-dimensional fixed-point vector: a recorded position or a velocity.
#[derive(Clone, Copy, Debug, PartialEq, Eq, Structural)]
pub struct Vec2 {
    pub x: i64,
    pub y: i64,
}

/// Component-wise saturating vector addition.
pub open spec fn vec2_add_spec(a: Vec2, b: Vec2) -> Vec2 {
    (Vec2 { x: sat_i64(a.x + b.x) as i64, y: sat_i64(a.y + b.y) as i64 })
}

/// Component-wise `v * b / d`, truncating and saturating.
pub open spec fn vec2_mul_div_spec(v: Vec2, b: int, d: int) -> Vec2 {
    (Vec2 {
        x: sat_i64(div_trunc(v.x * b, d)) as i64,
        y: sat_i64(div_trunc(v.y * b, d)) as i64,
    })
}

impl Vec2 {
    /// The origin.
    pub fn zero() -> (r: Vec2)
        ensures
            r == (Vec2 { x: 0i64, y: 0i64 }),
    {
        Vec2 { x: 0, y: 0 }
    }

    /// Builds a vector from its components.
    pub fn new(x: i64, y: i64) -> (r: Vec2)
        ensures
            r == (Vec2 { x, y }),
    {
        Vec2 { x, y }
    }

    /// Saturating vector addition.
    pub fn add_sat(self, o: Vec2) -> (r: Vec2)
        ensures
            r == vec2_add_spec(self, o),
    {
        Vec2 { x: add_i64_sat(self.x, o.x), y: add_i64_sat(self.y, o.y) }
    }

    /// Scales the vector by the exact ratio `b / d`.
    pub fn mul_div(self, b: u64, d: u64) -> (r: Vec2)
        requires
            1 <= d,
        ensures
            r == vec2_mul_div_spec(self, b as int, d as int),
    {
        Vec2 { x: mul_div_sat(self.x, b, d), y: mul_div_sat(self.y, b, d) }
    }
}

/// Rational sine approximation on the half turn `[0, PI_MICRO]`,
/// scaled so that one maps to [`FIXED_ONE`].
pub open spec fn sin_half_spec(x: int) -> int
    recommends
        0 <= x <= PI_MICRO,
{
    let p = PI_MICRO as int;
    (16 * x * (p - x) * (FIXED_ONE as int)) / (5 * p * p - 4 * x * (p - x))
}

/// Sine of an angle given in micro-radians, as a fixed-point value.
pub open spec fn sin_fixed_spec(angle: int) -> int {
    let p = PI_MICRO as int;
    let a = angle % (2 * p);
    if a <= p {
        sin_half_spec(a)
    } else {
        -sin_half_spec(a - p)
    }
}

proof fn lemma_sin_half_bounds(x: int)
    requires
        0 <= x <= PI_MICRO,
    ensures
        4 * x * (PI_MICRO - x) <= (PI_MICRO as int) * (PI_MICRO as int),
        0 <= x * (PI_MICRO - x),
{
    let p = PI_MICRO as int;
    assert(4 * x * (p - x) <= p * p && 0 <= x * (p - x)) by (nonlinear_arith)
        requires
            0 <= x <= p,
    ;
}

/// Numerator and denominator of the half-turn sine approximation at `x`.
fn sin_half(x: u64) -> (r: i64)
    requires
        x <= PI_MICRO,
    ensures
        r == sin_half_spec(x as int),
        0 <= r <= FIXED_ONE,
{
    let p: u64 = PI_MICRO;
    proof {
        lemma_sin_half_bounds(x as int);
        assert(16 * (x as int) * ((p - x) as int) * (FIXED_ONE as int) <= u128::MAX
            && 0 <= 16 * (x as int) * ((p - x) as int) * (FIXED_ONE as int)) by (nonlinear_arith)
            requires
                0 <= x <= PI_MICRO,
                p == PI_MICRO,
        ;
    }
    let num: u128 = 16u128 * (x as u128) * ((p - x) as u128) * (FIXED_ONE as u128);
    let den: u128 = 5u128 * (p as u128) * (p as u128) - 4u128 * (x as u128) * ((p - x) as u128);
    let q: u128 = num / den;
    proof {
        let pi = p as int;
        let xi = x as int;
        let n = 16 * xi * (pi - xi) * (FIXED_ONE as int);
        let d = 5 * pi * pi - 4 * xi * (pi - xi);
        assert(n <= d * (FIXED_ONE as int)) by (nonlinear_arith)
            requires
                n == 16 * xi * (pi - xi) * (FIXED_ONE as int),
                d == 5 * pi * pi - 4 * xi * (pi - xi),
                4 * xi * (pi - xi) <= pi * pi,
                0 <= xi * (pi - xi),
                pi == PI_MICRO as int,
        ;
        vstd::arithmetic::div_mod::lemma_div_is_ordered(n, d * (FIXED_ONE as int), d);
        vstd::arithmetic::div_mod::lemma_div_by_multiple(FIXED_ONE as int, d);
        assert(q == n / d);
        assert(n / d <= FIXED_ONE);
        vstd::arithmetic::div_mod::lemma_div_pos_is_pos(n, d);
    }
    q as i64
}

/// Sine of a nonnegative angle in micro-radians, in fixed-point scale.
pub fn sin_fixed(angle: u64) -> (r: i64)
    ensures
        r == sin_fixed_spec(angle as int),
        -FIXED_ONE <= r <= FIXED_ONE,
{
    let two_pi: u64 = 2 * PI_MICRO;
    let a: u64 = angle % two_pi;
    if a <= PI_MICRO {
        sin_half(a)
    } else {
        -sin_half(a - PI_MICRO)
    }
}

/// The periodic forcing term of the wave behaviours: a vertical push of
/// `sin(20 t) * 300` world units per second, integrated over `delta` nanoseconds.
pub open spec fn sine_wave_spec(delta_nanos: int, abs_nanos: int) -> Vec2 {
    let angle = abs_nanos * 20 / 1000;
    (Vec2 {
        x: 0i64,
        y: sat_i64(
            div_trunc(sin_fixed_spec(angle) * 300 * delta_nanos, NANOS_PER_SEC as int),
        ) as i64,
    })
}

/// Evaluates [`sine_wave_spec`] exactly.
pub fn sine_wave(delta_nanos: u64, abs_nanos: u64) -> (r: Vec2)
    ensures
        r == sine_wave_spec(delta_nanos as int, abs_nanos as int),
{
    let two_pi: u64 = 2 * PI_MICRO;
    let angle_big: u128 = (abs_nanos as u128) * 20 / 1000;
    let angle: u64 = (angle_big % (two_pi as u128)) as u64;
    let s: i64 = sin_fixed(angle);
    proof {
        let full = (abs_nanos as int) * 20 / 1000;
        vstd::arithmetic::div_mod::lemma_mod_twice(full, 2 * PI_MICRO as int);
        assert(sin_fixed_spec(angle as int) == sin_fixed_spec(full));
    }
    let s300: i64 = s * 300;
    let y: i64 = mul_div_sat(s300, delta_nanos, NANOS_PER_SEC);
    Vec2 { x: 0, y }
}

} // verus!
