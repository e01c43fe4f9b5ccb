use joykbd::axis::{Axis, Factor, StickConstants, FACTOR_DENOMINATOR, FULL_DEFLECTION, SPEED_UNIT};
use joykbd::config::Speed;

fn constants(steps: u32, drift_threshold: u32, adjustments: (i32, i32)) -> StickConstants {
    StickConstants {
        factor: Factor { numerator: Speed::from_steps(steps).micros },
        drift_threshold,
        adjustments,
    }
}

#[test]
fn centred_stick_gives_no_motion() {
    let c = constants(20, 2000, (0, 0));
    assert_eq!(c.map_axis(Axis::X, 0), 0);
    assert_eq!(c.map_axis(Axis::Y, 0), 0);
}

#[test]
fn full_deflection_gives_the_speed() {
    let c = constants(20, 2000, (0, 0));
    assert_eq!(c.map_axis(Axis::X, 30_000), 20);
    assert_eq!(c.map_axis(Axis::X, -30_000), -20);
    assert_eq!(c.map_axis(Axis::Y, 30_000), 20);
    assert_eq!(c.map_axis(Axis::Y, -30_000), -20);
}

#[test]
fn denominator_is_unit_times_fifth_power_of_full_deflection() {
    let full = u128::from(FULL_DEFLECTION);
    assert_eq!(FACTOR_DENOMINATOR, u128::from(SPEED_UNIT) * full * full * full * full * full);
}

#[test]
fn curve_values_are_rounded_fifth_powers() {
    let c = constants(20, 2000, (0, 0));
    // (1/3)^5 * 20 = 0.082
    assert_eq!(c.map_axis(Axis::X, 10_000), 0);
    // (1/2)^5 * 20 = 0.625
    assert_eq!(c.map_axis(Axis::X, 15_000), 1);
    // (2/3)^5 * 20 = 2.634
    assert_eq!(c.map_axis(Axis::X, 20_000), 3);
    // (5/6)^5 * 20 = 8.038
    assert_eq!(c.map_axis(Axis::X, 25_000), 8);
    // (32767/30000)^5 * 20 = 31.09
    assert_eq!(c.map_axis(Axis::X, 32_767), 31);
    assert_eq!(c.map_axis(Axis::X, -20_000), -3);
    assert_eq!(c.map_axis(Axis::Y, -25_000), -8);
    assert_eq!(c.map_axis(Axis::Y, -32_768), -31);
}

#[test]
fn halves_round_away_from_zero() {
    let half = StickConstants {
        factor: Factor { numerator: 500_000 },
        drift_threshold: 0,
        adjustments: (0, 0),
    };
    assert_eq!(half.map_axis(Axis::X, 30_000), 1);
    assert_eq!(half.map_axis(Axis::X, -30_000), -1);
    let below = StickConstants { factor: Factor { numerator: 499_999 }, ..half };
    assert_eq!(below.map_axis(Axis::X, 30_000), 0);
    assert_eq!(below.map_axis(Axis::X, -30_000), 0);
    let more = StickConstants { factor: Factor { numerator: 1_500_000 }, ..half };
    assert_eq!(more.map_axis(Axis::X, 30_000), 2);
    assert_eq!(more.map_axis(Axis::X, -30_000), -2);
}

#[test]
fn dead_zone_is_judged_on_the_corrected_sample() {
    // (2000/30000)^5 = 1/759375, so this speed gives exactly one step at 2000.
    let c = constants(759_375, 2000, (0, 0));
    assert_eq!(c.map_axis(Axis::X, 2000), 1);
    assert_eq!(c.map_axis(Axis::X, 1999), 0);
    assert_eq!(c.map_axis(Axis::X, -2000), -1);
    assert_eq!(c.map_axis(Axis::X, -1999), 0);
    let shifted = constants(759_375, 2000, (100, -100));
    assert_eq!(shifted.map_axis(Axis::X, 1900), 1);
    assert_eq!(shifted.map_axis(Axis::X, 1899), 0);
    assert_eq!(shifted.map_axis(Axis::X, -2100), -1);
    assert_eq!(shifted.map_axis(Axis::X, -2099), 0);
    assert_eq!(shifted.map_axis(Axis::Y, 2100), 1);
    assert_eq!(shifted.map_axis(Axis::Y, 2099), 0);
    assert_eq!(shifted.map_axis(Axis::Y, -1900), -1);
    assert_eq!(shifted.map_axis(Axis::Y, -1899), 0);
}

#[test]
fn each_axis_has_its_own_adjustment() {
    let c = constants(20, 2000, (30_000, -30_000));
    assert_eq!(c.map_axis(Axis::X, 0), 20);
    assert_eq!(c.map_axis(Axis::Y, 0), -20);
    assert_eq!(c.map_axis(Axis::X, -30_000), 0);
    assert_eq!(c.map_axis(Axis::Y, 30_000), 0);
}

#[test]
fn zero_threshold_has_no_dead_zone() {
    let c = constants(759_375, 0, (0, 0));
    assert_eq!(c.map_axis(Axis::X, 0), 0);
    // (1999/2000)^5 = 0.9975
    assert_eq!(c.map_axis(Axis::X, 1999), 1);
    // (1741/2000)^5 = 0.49985, (1742/2000)^5 = 0.5013
    assert_eq!(c.map_axis(Axis::X, 1741), 0);
    assert_eq!(c.map_axis(Axis::X, 1742), 1);
}

#[test]
fn widest_threshold_silences_all_but_the_extremes() {
    let c = constants(20, u32::MAX, (0, 0));
    assert_eq!(c.map_axis(Axis::X, i32::MAX), 0);
    assert_eq!(c.map_axis(Axis::X, i32::MIN), 0);
    let shifted = constants(20, u32::MAX, (i32::MIN, i32::MAX));
    assert_eq!(shifted.map_axis(Axis::X, i32::MIN), i32::MIN);
    assert_eq!(shifted.map_axis(Axis::X, i32::MIN + 1), i32::MIN);
    assert_eq!(shifted.map_axis(Axis::X, i32::MIN + 2), 0);
    assert_eq!(shifted.map_axis(Axis::Y, i32::MAX), 0);
}

#[test]
fn zero_speed_gives_no_motion() {
    let c = constants(0, 0, (0, 0));
    assert_eq!(c.map_axis(Axis::X, 30_000), 0);
    assert_eq!(c.map_axis(Axis::X, i32::MAX), 0);
    assert_eq!(c.map_axis(Axis::X, i32::MIN), 0);
}

#[test]
fn large_results_stop_at_the_ends_of_i32() {
    let fastest = StickConstants {
        factor: Factor { numerator: u64::MAX },
        drift_threshold: 0,
        adjustments: (i32::MAX, i32::MIN),
    };
    assert_eq!(fastest.map_axis(Axis::X, i32::MAX), i32::MAX);
    assert_eq!(fastest.map_axis(Axis::Y, i32::MIN), i32::MIN);
    let slowest = StickConstants { factor: Factor { numerator: 1 }, ..fastest };
    assert_eq!(slowest.map_axis(Axis::X, i32::MAX), i32::MAX);
    assert_eq!(slowest.map_axis(Axis::Y, i32::MIN), i32::MIN);
    let c = constants(20, 2000, (0, 0));
    // (2^31 / 30000)^5 * 20 is about 3.76e25
    assert_eq!(c.map_axis(Axis::X, i32::MAX), i32::MAX);
    assert_eq!(c.map_axis(Axis::X, i32::MIN), i32::MIN);
}

#[test]
fn last_values_before_the_ends_of_i32() {
    // One step per repeat at full deflection: the result is (v/30000)^5.
    let c = constants(1, 0, (0, 0));
    // (2_203_000 / 30000)^5 = 2_135_335_951.76
    assert_eq!(c.map_axis(Axis::X, 2_203_000), 2_135_335_952);
    assert_eq!(c.map_axis(Axis::X, -2_203_000), -2_135_335_952);
    assert_eq!(c.map_axis(Axis::X, 2_210_000), i32::MAX);
    assert_eq!(c.map_axis(Axis::X, -2_210_000), i32::MIN);
}

#[test]
fn motion_never_decreases_with_the_sample() {
    let c = constants(20, 2000, (37, -41));
    let mut last_x = c.map_axis(Axis::X, -40_000);
    let mut last_y = c.map_axis(Axis::Y, -40_000);
    let mut v: i32 = -40_000;
    while v <= 40_000 {
        let x = c.map_axis(Axis::X, v);
        let y = c.map_axis(Axis::Y, v);
        assert!(last_x <= x, "x at {}", v);
        assert!(last_y <= y, "y at {}", v);
        last_x = x;
        last_y = y;
        v += 1;
    }
}

#[test]
fn motion_has_the_sign_of_the_corrected_sample() {
    let c = constants(20, 2000, (500, 0));
    let mut v: i32 = -40_000;
    while v <= 40_000 {
        let out = c.map_axis(Axis::X, v);
        let adjusted = v + 500;
        if adjusted.unsigned_abs() < 2000 {
            assert_eq!(out, 0);
        } else if out != 0 {
            assert_eq!(out.signum(), adjusted.signum(), "at {}", v);
        }
        // 20 * (15000/30000)^5 = 0.625 is the first value that rounds to a step
        if adjusted.unsigned_abs() >= 15_000 {
            assert_eq!(out.signum(), adjusted.signum(), "at {}", v);
        }
        v += 13;
    }
}

#[test]
fn curve_is_odd() {
    let c = constants(20, 2000, (0, 0));
    let mut v: i32 = 0;
    while v <= 40_000 {
        assert_eq!(c.map_axis(Axis::X, -v), -c.map_axis(Axis::X, v));
        v += 11;
    }
}

#[test]
fn agrees_with_floating_point_within_rounding() {
    let speed: f64 = 20.0;
    let factor: f64 = speed / 30_000f64.powi(5);
    let c = constants(20, 2000, (0, 0));
    let mut v: i32 = -33_000;
    while v <= 33_000 {
        let float = if v.unsigned_abs() < 2000 { 0.0 } else { f64::from(v).powi(5) * factor };
        let out = c.map_axis(Axis::X, v);
        assert!((f64::from(out) - float).abs() <= 0.5 + 1e-9, "at {}: {} and {}", v, out, float);
        v += 1;
    }
}
