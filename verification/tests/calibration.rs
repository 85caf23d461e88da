use calibrator::calibration::{
    encode_sdr_white_level, hdr_balance, BRIGHTNESS_HIGH, BRIGHTNESS_LOW, GAMMA_DENOMINATOR,
    GAMMA_NUMERATOR,
};
use calibrator::daemon::reconcile;

#[test]
fn authoritative_pairs_are_exact_and_outside_values_saturate() {
    let calibrated_gamma = f64::from(GAMMA_NUMERATOR) / f64::from(GAMMA_DENOMINATOR);
    assert_eq!(BRIGHTNESS_LOW, 42);
    assert_eq!(BRIGHTNESS_HIGH, 98);
    assert!((calibrated_gamma - 2.4).abs() < f64::EPSILON);
    assert_eq!(hdr_balance(0), 0);
    assert_eq!(hdr_balance(BRIGHTNESS_LOW), 0);
    assert_eq!(hdr_balance(BRIGHTNESS_HIGH), 100);
    assert_eq!(hdr_balance(100), 100);
}

#[test]
fn interpolation_is_monotone_and_bounded() {
    let values: Vec<_> = (0..=100).map(hdr_balance).collect();
    assert!(values.iter().all(|value| *value <= 100));
    assert!(values.windows(2).all(|pair| pair[0] <= pair[1]));
    assert!(values[43] > values[42]);
    assert!(values[97] < values[98]);
}

#[test]
fn interpolation_matches_supplied_formula_at_interior_points() {
    let expected = [
        (43, 1),
        (50, 8),
        (60, 20),
        (70, 36),
        (80, 56),
        (90, 79),
        (97, 97),
    ];
    for (brightness, balance) in expected {
        assert_eq!(hdr_balance(brightness), balance);
    }
}

#[test]
fn white_level_encoding_matches_windows_slider_endpoints() {
    assert_eq!(encode_sdr_white_level(0), 1_000);
    assert_eq!(encode_sdr_white_level(50), 3_500);
    assert_eq!(encode_sdr_white_level(100), 6_000);
}

/// The balance is the curve, rounded, everywhere.
#[test]
fn balance_is_the_rounded_curve() {
    let gamma = f64::from(GAMMA_NUMERATOR) / f64::from(GAMMA_DENOMINATOR);
    let power = |brightness: u8| f64::from(brightness).powf(gamma);
    for brightness in 0..=255u8 {
        let exact =
            100.0 * (power(brightness) - power(42)) / (power(98) - power(42));
        let expected = exact.clamp(0.0, 100.0).round();
        assert!((f64::from(hdr_balance(brightness)) - expected).abs() < 0.5);
    }
}

#[test]
fn white_levels_stand_for_the_documented_luminance() {
    let nits = |brightness: u8| encode_sdr_white_level(hdr_balance(brightness)) * 80 / 1_000;
    assert_eq!(nits(42), 80);
    assert_eq!(nits(47), 100);
    assert_eq!(nits(67), 204);
    assert_eq!(nits(70), 224);
    assert_eq!(nits(80), 304);
    assert_eq!(nits(98), 480);
}

#[test]
fn white_level_of_a_byte_does_not_wrap() {
    assert_eq!(encode_sdr_white_level(255), 13_750);
}

#[test]
fn unknown_brightness_has_no_white_level() {
    assert_eq!(reconcile(None), None);
    assert_eq!(reconcile(Some(0)), Some(1_000));
    assert_eq!(reconcile(Some(70)), Some(2_800));
    assert_eq!(reconcile(Some(200)), Some(6_000));
}
