//! Exact fixed-point arithmetic for the turtle runtime.
//!
//! Lengths and coordinates are measured in thousandths of a canvas unit,
//! angles in thousandths of a degree.  Sines and cosines are integers scaled
//! by `TRIG_ONE`, computed with Bhaskara I's rational approximation, which is
//! exact at every multiple of a quarter turn.
use vstd::prelude::*;

verus! {

/// Fixed-point scale: one canvas unit, one degree.
pub const MILLI: i64 = 1000;

/// Scale of sine/cosine values: `TRIG_ONE` stands for 1.
pub const TRIG_ONE: i64 = 1_000_000;

/// One full turn in millidegrees.
pub const FULL_TURN: i64 = 360_000;

/// Half a turn in millidegrees.
pub const HALF_TURN: i64 = 180_000;

/// A quarter turn in millidegrees.
pub const QUARTER_TURN: i64 = 90_000;

/// Largest coordinate magnitude the runtime tracks, in milliunits.
pub const MAX_COORD: i64 = 50_000_000_000_000;

/// Largest single motion distance, in milliunits.
pub const MAX_DISTANCE: i64 = 1_000_000_000_000;

/// Largest heading magnitude the runtime tracks, in millidegrees.  Headings
/// accumulate and are never wrapped, so this is a machine limit, not a
/// wrap-around point.
pub const MAX_ANGLE: i64 = 1_000_000_000_000;

/// Largest rotation of a single command, in millidegrees (a thousand turns).
pub const MAX_ROTATION: i64 = 360_000_000;

/// Largest absolute heading a `SetHeading` command may request, in
/// millidegrees.
pub const MAX_HEADING: i64 = 1_000_000_000;

/// Largest pen width, in milliunits.
pub const MAX_WIDTH: i64 = 1_000_000_000;

/// Largest number of chord steps of one circle command.
pub const MAX_STEPS: u32 = 100_000;

/// Truncating (round toward zero) division, the meaning of `/` on machine
/// integers.
pub open spec fn trunc_div(a: int, b: int) -> int
    recommends
        b > 0,
{
    if a >= 0 {
        a / b
    } else {
        -((-a) / b)
    }
}

/// Division rounded to the nearest integer, halves away from zero.
pub open spec fn round_div(a: int, b: int) -> int
    recommends
        b > 0,
{
    if a >= 0 {
        (a + b / 2) / b
    } else {
        -((-a + b / 2) / b)
    }
}

/// Absolute value.
pub open spec fn abs_i(a: int) -> int {
    if a >= 0 {
        a
    } else {
        -a
    }
}

/// Truncating division of two machine integers.
pub fn div_trunc(a: i64, b: i64) -> (r: i64)
    requires
        b > 0,
        a > i64::MIN,
    ensures
        r == trunc_div(a as int, b as int),
        abs_i(r as int) <= abs_i(a as int),
{
    if a >= 0 {
        a / b
    } else {
        -((-a) / b)
    }
}

/// Division of two machine integers rounded to the nearest integer, halves
/// away from zero.
pub fn div_round(a: i64, b: i64) -> (r: i64)
    requires
        b > 0,
        abs_i(a as int) + b / 2 <= i64::MAX,
    ensures
        r == round_div(a as int, b as int),
{
    if a >= 0 {
        (a + b / 2) / b
    } else {
        -((-a + b / 2) / b)
    }
}

/// A rounded quotient is no larger than any multiple bound on the dividend:
/// if `|a| <= m * b` then `|round_div(a, b)| <= m`.
pub proof fn lemma_round_div_bound(a: int, b: int, m: int)
    requires
        b > 0,
        m >= 0,
        abs_i(a) <= m * b,
    ensures
        abs_i(round_div(a, b)) <= m,
{
    if a >= 0 {
        assert((a + b / 2) / b <= m) by (nonlinear_arith)
            requires
                b > 0,
                m >= 0,
                0 <= a <= m * b,
        ;
        assert((a + b / 2) / b >= 0) by (nonlinear_arith)
            requires
                b > 0,
                a >= 0,
        ;
    } else {
        assert((-a + b / 2) / b <= m) by (nonlinear_arith)
            requires
                b > 0,
                m >= 0,
                0 <= -a <= m * b,
        ;
        assert((-a + b / 2) / b >= 0) by (nonlinear_arith)
            requires
                b > 0,
                a < 0,
        ;
    }
}

/// An angle reduced to one full turn, in `[0, FULL_TURN)`.
pub open spec fn norm_angle(d: int) -> int {
    d % 360_000
}

/// Bhaskara I's rational sine approximation on a half turn, scaled by
/// `TRIG_ONE`.  Exact at 0, a quarter turn and a half turn.
pub open spec fn bhaskara(d: int) -> int
    recommends
        0 <= d <= 180_000,
{
    let p = d * (180_000 - d);
    (4 * p * 1_000_000) / (40_500_000_000 - p)
}

/// Sine of an angle in millidegrees, scaled by `TRIG_ONE`.
pub open spec fn spec_sin(d: int) -> int {
    let a = norm_angle(d);
    if a <= 180_000 {
        bhaskara(a)
    } else {
        -bhaskara(a - 180_000)
    }
}

/// Cosine of an angle in millidegrees, scaled by `TRIG_ONE`.
pub open spec fn spec_cos(d: int) -> int {
    spec_sin(d + 90_000)
}

/// The sine approximation stays within one scaled unit.
pub proof fn lemma_bhaskara_range(d: int)
    requires
        0 <= d <= 180_000,
    ensures
        0 <= bhaskara(d) <= 1_000_000,
{
    let p = d * (180_000 - d);
    assert(0 <= p <= 8_100_000_000) by (nonlinear_arith)
        requires
            0 <= d <= 180_000,
            p == d * (180_000 - d),
    ;
    assert(0 <= (4 * p * 1_000_000) / (40_500_000_000 - p)) by (nonlinear_arith)
        requires
            0 <= p <= 8_100_000_000,
    ;
    assert((4 * p * 1_000_000) / (40_500_000_000 - p) <= 1_000_000) by (nonlinear_arith)
        requires
            0 <= p <= 8_100_000_000,
    ;
}

/// Bhaskara's approximation on a half turn, on machine integers.
fn bhaskara_exec(d: i64) -> (r: i64)
    requires
        0 <= d <= 180_000,
    ensures
        r == bhaskara(d as int),
        0 <= r <= 1_000_000,
{
    proof {
        lemma_bhaskara_range(d as int);
    }
    assert(0 <= d * (180_000 - d) <= 8_100_000_000) by (nonlinear_arith)
        requires
            0 <= d <= 180_000,
    ;
    let p = d * (180_000 - d);
    let num = 4 * p * 1_000_000;
    let den = 40_500_000_000 - p;
    num / den
}

/// Sine of an angle in millidegrees, scaled by `TRIG_ONE`.
pub fn sin_mdeg(d: i64) -> (r: i64)
    requires
        d > i64::MIN,
    ensures
        r == spec_sin(d as int),
        -TRIG_ONE <= r <= TRIG_ONE,
{
    let rem = d % FULL_TURN;
    let a = if rem < 0 {
        rem + FULL_TURN
    } else {
        rem
    };
    assert(a == norm_angle(d as int)) by {
        vstd::arithmetic::div_mod::lemma_mod_division_less_than_divisor(d as int, 360_000);
    }
    if a <= HALF_TURN {
        bhaskara_exec(a)
    } else {
        -bhaskara_exec(a - HALF_TURN)
    }
}

/// Cosine of an angle in millidegrees, scaled by `TRIG_ONE`.
pub fn cos_mdeg(d: i64) -> (r: i64)
    requires
        d + 90_000 <= i64::MAX,
        d > i64::MIN,
    ensures
        r == spec_cos(d as int),
        -TRIG_ONE <= r <= TRIG_ONE,
{
    sin_mdeg(d + QUARTER_TURN)
}

} // verus!
