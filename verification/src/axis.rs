//! The response curve of an analog stick axis.
//!
//! A raw sample is first corrected by a per-axis offset. Samples inside the
//! dead zone give no motion. Outside it the motion is the fifth power of the
//! corrected sample times a factor, rounded to the nearest integer. The
//! factor is an exact fraction with the fixed denominator
//! [`FACTOR_DENOMINATOR`], so the curve is computed in integers throughout.

use vstd::prelude::*;
use vstd::arithmetic::div_mod::*;
use vstd::math::min;

verus! {

/// The stick magnitude that is mapped to the configured speed.
pub const FULL_DEFLECTION: u64 = 30_000;

/// The number of speed units that make one pointer step per repeat.
pub const SPEED_UNIT: u64 = 1_000_000;

/// The denominator of every factor: `SPEED_UNIT * FULL_DEFLECTION^5`.
pub const FACTOR_DENOMINATOR: u128 = 24_300_000_000_000_000_000_000_000_000;

/// One of the two axes of pointer motion.
#[derive(Clone, Copy, Debug, PartialEq, Eq, Structural)]
pub enum Axis {
    X,
    Y,
}

/// The scale of the response curve: `numerator / FACTOR_DENOMINATOR`.
#[derive(Clone, Copy, Debug, PartialEq, Eq, Structural)]
pub struct Factor {
    pub numerator: u64,
}

/// What the response curve needs to know about the stick.
#[derive(Clone, Copy, Debug, PartialEq, Eq)]
pub struct StickConstants {
    /// Scale of the curve.
    pub factor: Factor,
    /// Corrected samples of a smaller magnitude give no motion.
    pub drift_threshold: u32,
    /// Offsets added to the raw samples of the X and the Y axis.
    pub adjustments: (i32, i32),
}

/// The fifth power.
pub open spec fn pow5(a: int) -> int {
    a * a * a * a * a
}

/// The absolute value.
pub open spec fn magnitude(a: int) -> int {
    if a < 0 {
        -a
    } else {
        a
    }
}

/// The integer nearest to `n / d`, for `n >= 0` and `d > 0`; a half is
/// rounded up.
pub open spec fn round_div(n: int, d: int) -> int {
    n / d + if 2 * (n % d) >= d {
        1int
    } else {
        0int
    }
}

/// The value of `i32` nearest to `x`.
pub open spec fn clamp_i32(x: int) -> int {
    if x < i32::MIN {
        i32::MIN as int
    } else if x > i32::MAX {
        i32::MAX as int
    } else {
        x
    }
}

/// The curve itself: `adjusted^5 * numerator / FACTOR_DENOMINATOR`, rounded
/// to the nearest integer, halves away from zero.
pub open spec fn curve(adjusted: int, numerator: int) -> int {
    let m = round_div(pow5(magnitude(adjusted)) * numerator, FACTOR_DENOMINATOR as int);
    if adjusted < 0 {
        -m
    } else {
        m
    }
}

/// The motion for a corrected sample: nothing inside the dead zone, the
/// curve outside it, kept within `i32`.
pub open spec fn response(adjusted: int, threshold: int, numerator: int) -> int {
    if magnitude(adjusted) < threshold {
        0
    } else {
        clamp_i32(curve(adjusted, numerator))
    }
}

/// The sign of an integer: -1, 0 or 1.
pub open spec fn sign(x: int) -> int {
    if x < 0 {
        -1
    } else if x == 0 {
        0
    } else {
        1
    }
}

/// The magnitude of the curve at a corrected sample of magnitude `m`, cut
/// off at 2^31.
fn curve_magnitude(m: u64, numerator: u64) -> (r: u64)
    requires
        m <= 0x1_0000_0000,
    ensures
        r == min(
            round_div(pow5(m as int) * numerator, FACTOR_DENOMINATOR as int),
            0x8000_0000,
        ),
{
    if m == 0 || numerator == 0 {
        assert(pow5(m as int) * numerator == 0) by (nonlinear_arith)
            requires
                m == 0 || numerator == 0,
                pow5(m as int) == m * m * m * m * m,
        ;
        return 0;
    }
    let a: u128 = m as u128;
    assert(a * a <= 0x1_0000_0000_0000_0000) by (nonlinear_arith)
        requires
            a <= 0x1_0000_0000,
    ;
    let a2: u128 = a * a;
    assert(a2 * a <= 0x1_0000_0000_0000_0000_0000_0000) by (nonlinear_arith)
        requires
            a <= 0x1_0000_0000,
            a2 <= 0x1_0000_0000_0000_0000,
    ;
    let a3: u128 = a2 * a;
    proof {
        lemma_pow5_split(a as int);
        lemma_pow5_lower(a as int, numerator as int);
    }
    let product: Option<u128> = match a3.checked_mul(a2) {
        Some(a5) => a5.checked_mul(numerator as u128),
        None => None,
    };
    match product {
        None => {
            proof {
                lemma_round_div_saturates(pow5(m as int) * numerator);
            }
            0x8000_0000
        },
        Some(n) => {
            assert(n == pow5(m as int) * numerator);
            let q: u128 = n / FACTOR_DENOMINATOR;
            let rest: u128 = n % FACTOR_DENOMINATOR;
            let rounded: u128 = if rest >= FACTOR_DENOMINATOR - rest {
                q + 1
            } else {
                q
            };
            if rounded >= 0x8000_0000 {
                0x8000_0000
            } else {
                rounded as u64
            }
        },
    }
}

impl StickConstants {
    /// The offset of an axis.
    pub open spec fn adjustment(&self, axis: Axis) -> int {
        match axis {
            Axis::X => self.adjustments.0 as int,
            Axis::Y => self.adjustments.1 as int,
        }
    }

    /// The motion that a raw sample of an axis gives.
    pub open spec fn spec_map_axis(&self, axis: Axis, value: i32) -> int {
        response(
            value + self.adjustment(axis),
            self.drift_threshold as int,
            self.factor.numerator as int,
        )
    }

    /// Maps a raw sample of an axis to pointer motion.
    pub fn map_axis(&self, axis: Axis, value: i32) -> (out: i32)
        ensures
            out == self.spec_map_axis(axis, value),
            magnitude(value + self.adjustment(axis)) < self.drift_threshold ==> out == 0,
            value + self.adjustment(axis) >= 0 ==> out >= 0,
            value + self.adjustment(axis) <= 0 ==> out <= 0,
    {
        proof {
            lemma_curve_sign(value + self.adjustment(axis), self.factor.numerator as int);
        }
        let adjustment: i32 = match axis {
            Axis::X => self.adjustments.0,
            Axis::Y => self.adjustments.1,
        };
        let adjusted: i64 = value as i64 + adjustment as i64;
        let m: u64 = if adjusted < 0 {
            (-adjusted) as u64
        } else {
            adjusted as u64
        };
        if m < self.drift_threshold as u64 {
            return 0;
        }
        let r: u64 = curve_magnitude(m, self.factor.numerator);
        if adjusted < 0 {
            (-(r as i64)) as i32
        } else if r > 0x7fff_ffff {
            0x7fff_ffff
        } else {
            r as i32
        }
    }
}

/// `round_div(n, d)` is an integer nearest to `n / d`: it is no further
/// than half of `d` from `n` when multiplied back.
pub proof fn lemma_round_div_is_nearest(n: int, d: int)
    requires
        n >= 0,
        d > 0,
    ensures
        2 * magnitude(round_div(n, d) * d - n) <= d,
        round_div(n, d) >= 0,
{
    lemma_fundamental_div_mod(n, d);
    lemma_mod_bound(n, d);
    lemma_div_pos_is_pos(n, d);
    let q = n / d;
    assert((q + 1) * d == q * d + d) by (nonlinear_arith);
    assert(q * d == d * q) by (nonlinear_arith);
}

/// Rounding keeps the order of the numerators.
pub proof fn lemma_round_div_is_monotonic(n1: int, n2: int, d: int)
    requires
        0 <= n1 <= n2,
        d > 0,
    ensures
        round_div(n1, d) <= round_div(n2, d),
{
    lemma_fundamental_div_mod(n1, d);
    lemma_fundamental_div_mod(n2, d);
    lemma_mod_bound(n1, d);
    lemma_mod_bound(n2, d);
    lemma_div_is_ordered(n1, n2, d);
    let q1 = n1 / d;
    let q2 = n2 / d;
    if q1 == q2 {
        assert(n1 % d <= n2 % d);
    }
}

/// The fifth power keeps the order of magnitudes.
pub proof fn lemma_pow5_is_monotonic(a: int, b: int)
    requires
        0 <= a <= b,
    ensures
        0 <= pow5(a) <= pow5(b),
{
    assert(0 <= a * a <= b * b) by (nonlinear_arith)
        requires
            0 <= a <= b,
    ;
    assert(0 <= a * a * a <= b * b * b) by (nonlinear_arith)
        requires
            0 <= a <= b,
            0 <= a * a <= b * b,
    ;
    assert(0 <= a * a * a * a <= b * b * b * b) by (nonlinear_arith)
        requires
            0 <= a <= b,
            0 <= a * a * a <= b * b * b,
    ;
    assert(0 <= a * a * a * a * a <= b * b * b * b * b) by (nonlinear_arith)
        requires
            0 <= a <= b,
            0 <= a * a * a * a <= b * b * b * b,
    ;
}

/// The curve is odd: mirrored input gives mirrored output.
pub proof fn lemma_curve_is_odd(adjusted: int, numerator: int)
    requires
        numerator >= 0,
    ensures
        curve(-adjusted, numerator) == -curve(adjusted, numerator),
{
    if adjusted == 0 {
        assert(pow5(0) * numerator == 0) by (nonlinear_arith)
            requires
                pow5(0) == 0,
        ;
    }
}

/// The curve never points against its input.
pub proof fn lemma_curve_sign(adjusted: int, numerator: int)
    requires
        numerator >= 0,
    ensures
        adjusted >= 0 ==> curve(adjusted, numerator) >= 0,
        adjusted <= 0 ==> curve(adjusted, numerator) <= 0,
{
    let m = magnitude(adjusted);
    lemma_pow5_is_monotonic(0, m);
    assert(pow5(m) * numerator >= 0) by (nonlinear_arith)
        requires
            pow5(m) >= 0,
            numerator >= 0,
    ;
    lemma_round_div_is_nearest(pow5(m) * numerator, FACTOR_DENOMINATOR as int);
    if adjusted == 0 {
        assert(pow5(0) * numerator == 0) by (nonlinear_arith)
            requires
                pow5(0) == 0,
        ;
    }
}

/// The curve keeps the order of its inputs.
pub proof fn lemma_curve_is_monotonic(a: int, b: int, numerator: int)
    requires
        a <= b,
        numerator >= 0,
    ensures
        curve(a, numerator) <= curve(b, numerator),
{
    let d = FACTOR_DENOMINATOR as int;
    lemma_curve_sign(a, numerator);
    lemma_curve_sign(b, numerator);
    if a >= 0 {
        lemma_pow5_is_monotonic(a, b);
        assert(0 <= pow5(a) * numerator <= pow5(b) * numerator) by (nonlinear_arith)
            requires
                0 <= pow5(a) <= pow5(b),
                numerator >= 0,
        ;
        lemma_round_div_is_monotonic(pow5(a) * numerator, pow5(b) * numerator, d);
    } else if b < 0 {
        lemma_pow5_is_monotonic(-b, -a);
        assert(0 <= pow5(-b) * numerator <= pow5(-a) * numerator) by (nonlinear_arith)
            requires
                0 <= pow5(-b) <= pow5(-a),
                numerator >= 0,
        ;
        lemma_round_div_is_monotonic(pow5(-b) * numerator, pow5(-a) * numerator, d);
    }
}

/// At full deflection the curve gives the speed that the factor was made
/// from, rounded to whole steps.
pub proof fn lemma_full_deflection_gives_speed(numerator: int)
    requires
        numerator >= 0,
    ensures
        curve(FULL_DEFLECTION as int, numerator) == round_div(numerator, SPEED_UNIT as int),
        curve(-(FULL_DEFLECTION as int), numerator) == -round_div(numerator, SPEED_UNIT as int),
{
    let p = 24_300_000_000_000_000_000_000int;
    let u = SPEED_UNIT as int;
    assert(30_000int * 30_000 * 30_000 * 30_000 * 30_000
        == 24_300_000_000_000_000_000_000int) by (nonlinear_arith);
    assert(FACTOR_DENOMINATOR as int == p * u);
    assert(p * numerator == numerator * p) by (nonlinear_arith);
    assert(p * u == u * p) by (nonlinear_arith);
    lemma_truncate_middle(numerator, p, u);
    lemma_div_denominator(numerator * p, p, u);
    lemma_div_by_multiple(numerator, p);
    assert((p * numerator) / (p * u) == numerator / u);
    assert(2 * (p * (numerator % u)) >= p * u <==> 2 * (numerator % u) >= u) by (nonlinear_arith)
        requires
            p > 0,
    ;
}

/// The response keeps the order of the corrected samples, the dead zone
/// included.
pub proof fn lemma_response_is_monotonic(a: int, b: int, threshold: int, numerator: int)
    requires
        a <= b,
        numerator >= 0,
    ensures
        response(a, threshold, numerator) <= response(b, threshold, numerator),
{
    lemma_curve_sign(a, numerator);
    lemma_curve_sign(b, numerator);
    lemma_curve_is_monotonic(a, b, numerator);
}

/// Beyond the dead zone the response has the sign of the corrected sample,
/// unless the curve is so flat there that it rounds to nothing.
pub proof fn lemma_response_sign(adjusted: int, threshold: int, numerator: int)
    requires
        numerator >= 0,
        magnitude(adjusted) >= threshold,
        adjusted != 0 ==> 2 * (pow5(magnitude(adjusted)) * numerator) >= FACTOR_DENOMINATOR,
    ensures
        sign(response(adjusted, threshold, numerator)) == sign(adjusted),
{
    let d = FACTOR_DENOMINATOR as int;
    let n = pow5(magnitude(adjusted)) * numerator;
    lemma_curve_sign(adjusted, numerator);
    if adjusted != 0 {
        lemma_fundamental_div_mod(n, d);
        lemma_mod_bound(n, d);
        lemma_div_pos_is_pos(n, d);
        if n / d == 0 {
            assert(d * (n / d) == 0);
        }
        assert(round_div(n, d) >= 1);
    }
}

/// A sample whose corrected magnitude is below the drift threshold moves
/// nothing.
pub proof fn lemma_dead_zone_is_still(constants: StickConstants, axis: Axis, value: i32)
    requires
        magnitude(value + constants.adjustment(axis)) < constants.drift_threshold,
    ensures
        constants.spec_map_axis(axis, value) == 0,
{
}

/// Outside the dead zone the motion has the sign of the corrected sample,
/// wherever the curve does not round to nothing.
pub proof fn lemma_sign_is_kept(constants: StickConstants, axis: Axis, value: i32)
    requires
        magnitude(value + constants.adjustment(axis)) >= constants.drift_threshold,
        value + constants.adjustment(axis) != 0 ==> 2 * (pow5(
            magnitude(value + constants.adjustment(axis)),
        ) * constants.factor.numerator) >= FACTOR_DENOMINATOR,
    ensures
        sign(constants.spec_map_axis(axis, value)) == sign(value + constants.adjustment(axis)),
{
    lemma_response_sign(
        value + constants.adjustment(axis),
        constants.drift_threshold as int,
        constants.factor.numerator as int,
    );
}

/// A larger sample never gives a smaller motion.
pub proof fn lemma_map_axis_is_monotonic(
    constants: StickConstants,
    axis: Axis,
    low: i32,
    high: i32,
)
    requires
        low <= high,
    ensures
        constants.spec_map_axis(axis, low) <= constants.spec_map_axis(axis, high),
{
    lemma_response_is_monotonic(
        low + constants.adjustment(axis),
        high + constants.adjustment(axis),
        constants.drift_threshold as int,
        constants.factor.numerator as int,
    );
}

/// The motion fits in an `i32`.
pub proof fn lemma_map_axis_fits(constants: StickConstants, axis: Axis, value: i32)
    ensures
        i32::MIN <= constants.spec_map_axis(axis, value) <= i32::MAX,
{
}

/// The fifth power is the cube times the square.
proof fn lemma_pow5_split(a: int)
    ensures
        (a * a * a) * (a * a) == pow5(a),
{
    assert((a * a * a) * (a * a) == a * a * a * a * a) by (nonlinear_arith);
}

/// Neither the fifth power of a positive magnitude nor its product with a
/// positive numerator is smaller than what it was made from.
proof fn lemma_pow5_lower(a: int, numerator: int)
    requires
        a >= 1,
        numerator >= 1,
    ensures
        pow5(a) * numerator >= pow5(a),
        pow5(a) >= 1,
{
    lemma_pow5_split(a);
    assert(a * a >= 1) by (nonlinear_arith)
        requires
            a >= 1,
    ;
    assert(a * a * a >= 1) by (nonlinear_arith)
        requires
            a >= 1,
            a * a >= 1,
    ;
    assert((a * a * a) * (a * a) >= 1) by (nonlinear_arith)
        requires
            a * a * a >= 1,
            a * a >= 1,
    ;
    assert(pow5(a) * numerator >= pow5(a)) by (nonlinear_arith)
        requires
            pow5(a) >= 1,
            numerator >= 1,
    ;
}

/// A numerator of at least 2^128 rounds to a quotient beyond `i32`.
proof fn lemma_round_div_saturates(n: int)
    requires
        n > u128::MAX,
    ensures
        round_div(n, FACTOR_DENOMINATOR as int) >= 0x8000_0000,
{
    let d = FACTOR_DENOMINATOR as int;
    lemma_div_is_ordered(u128::MAX as int, n, d);
    assert((u128::MAX as int) / d >= 0x8000_0000) by (nonlinear_arith)
        requires
            d == 24_300_000_000_000_000_000_000_000_000int,
    ;
}

} // verus!
