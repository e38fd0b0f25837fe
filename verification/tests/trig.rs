//! Tests of the fixed-point arithmetic: the integer sine and the rounding
//! division helpers.
use slowpoke::fixed::{cos_mdeg, div_round, div_trunc, sin_mdeg, TRIG_ONE};

#[test]
fn sine_is_exact_at_quarter_turns() {
    assert_eq!(sin_mdeg(0), 0);
    assert_eq!(sin_mdeg(90_000), TRIG_ONE);
    assert_eq!(sin_mdeg(180_000), 0);
    assert_eq!(sin_mdeg(270_000), -TRIG_ONE);
    assert_eq!(sin_mdeg(360_000), 0);
    assert_eq!(cos_mdeg(0), TRIG_ONE);
    assert_eq!(cos_mdeg(90_000), 0);
    assert_eq!(cos_mdeg(180_000), -TRIG_ONE);
}

#[test]
fn sine_is_exact_at_thirty_degrees() {
    // Bhaskara's approximation gives sin 30 degrees exactly
    assert_eq!(sin_mdeg(30_000), TRIG_ONE / 2);
    assert_eq!(cos_mdeg(60_000), TRIG_ONE / 2);
}

#[test]
fn sine_normalizes_any_angle() {
    assert_eq!(sin_mdeg(-90_000), -TRIG_ONE);
    assert_eq!(sin_mdeg(450_000), TRIG_ONE);
    assert_eq!(sin_mdeg(-360_000), 0);
    assert_eq!(sin_mdeg(720_000 + 30_000), sin_mdeg(30_000));
}

#[test]
fn sine_approximates_the_real_sine() {
    for deg in -720..=720 {
        let fixed = sin_mdeg(deg * 1_000) as f64 / TRIG_ONE as f64;
        let real = (deg as f64).to_radians().sin();
        assert!(
            (fixed - real).abs() < 0.0025,
            "sin({deg}) fixed {fixed} vs real {real}"
        );
    }
}

#[test]
fn division_helpers_round_as_documented() {
    assert_eq!(div_trunc(7, 2), 3);
    assert_eq!(div_trunc(-7, 2), -3);
    assert_eq!(div_round(2_500, 1_000), 3);
    assert_eq!(div_round(-2_500, 1_000), -3);
    assert_eq!(div_round(2_499, 1_000), 2);
    assert_eq!(div_round(-2_499, 1_000), -2);
    assert_eq!(div_round(500, 1_000), 1);
    assert_eq!(div_round(-500, 1_000), -1);
    assert_eq!(div_round(499, 1_000), 0);
}
