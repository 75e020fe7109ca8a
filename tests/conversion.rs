use veml6030::{
    has_high_lux_correction, lux_raw_conversion_factor, needs_high_lux_correction, Gain,
    IntegrationTime, CORRECTION_THRESHOLD_LUX, FACTOR_SCALE,
};

const TIMES: [(IntegrationTime, u32); 6] = [
    (IntegrationTime::Ms25, 1152),
    (IntegrationTime::Ms50, 576),
    (IntegrationTime::Ms100, 288),
    (IntegrationTime::Ms200, 144),
    (IntegrationTime::Ms400, 72),
    (IntegrationTime::Ms800, 36),
];

const GAINS: [(Gain, u32); 4] = [
    (Gain::OneEighth, 16),
    (Gain::OneQuarter, 8),
    (Gain::One, 2),
    (Gain::Two, 1),
];

#[test]
fn factor_table_is_product_of_gain_and_time() {
    for (it, it_factor) in TIMES {
        for (gain, gain_factor) in GAINS {
            let factor = lux_raw_conversion_factor(it, gain);
            assert_eq!(factor, gain_factor * it_factor);
            assert!(factor > 0);
        }
    }
}

#[test]
fn factor_table_values() {
    assert_eq!(FACTOR_SCALE, 10000);
    assert_eq!(lux_raw_conversion_factor(IntegrationTime::Ms100, Gain::One), 576);
    assert_eq!(lux_raw_conversion_factor(IntegrationTime::Ms100, Gain::Two), 288);
    assert_eq!(lux_raw_conversion_factor(IntegrationTime::Ms800, Gain::Two), 36);
    assert_eq!(
        lux_raw_conversion_factor(IntegrationTime::Ms25, Gain::OneEighth),
        18432
    );
}

#[test]
fn factor_halves_as_time_doubles() {
    for (it, _) in TIMES {
        let factor = lux_raw_conversion_factor(it, Gain::Two);
        assert_eq!(factor * u32::from(it.as_ms()), 28800);
    }
}

#[test]
fn only_low_gains_are_corrected() {
    assert!(has_high_lux_correction(Gain::OneEighth));
    assert!(has_high_lux_correction(Gain::OneQuarter));
    assert!(!has_high_lux_correction(Gain::One));
    assert!(!has_high_lux_correction(Gain::Two));
}

#[test]
fn gain_one_at_100ms_is_linear() {
    // 1480 counts at 0.0576 lx per count: 85.248 lx
    let factor = lux_raw_conversion_factor(IntegrationTime::Ms100, Gain::One);
    assert_eq!(1480 * factor, 852_480);
    assert!(!needs_high_lux_correction(IntegrationTime::Ms100, Gain::One, 1480));
}

#[test]
fn quarter_gain_below_1000_lux_is_linear() {
    // 1480 counts at 0.2304 lx per count: 340.992 lx
    let factor = lux_raw_conversion_factor(IntegrationTime::Ms100, Gain::OneQuarter);
    assert_eq!(1480 * factor, 3_409_920);
    assert!(!needs_high_lux_correction(
        IntegrationTime::Ms100,
        Gain::OneQuarter,
        1480
    ));
}

#[test]
fn eighth_gain_above_1000_lux_is_corrected() {
    // 1480 counts at 1.8432 lx per count: 2727.936 lx before the correction
    let factor = lux_raw_conversion_factor(IntegrationTime::Ms25, Gain::OneEighth);
    assert_eq!(1480 * factor, 27_279_360);
    assert!(needs_high_lux_correction(
        IntegrationTime::Ms25,
        Gain::OneEighth,
        1480
    ));
}

#[test]
fn high_gains_are_never_corrected() {
    for (it, _) in TIMES {
        for gain in [Gain::One, Gain::Two] {
            assert!(!needs_high_lux_correction(it, gain, u16::MAX));
            assert!(!needs_high_lux_correction(it, gain, 0));
        }
    }
}

#[test]
fn correction_starts_just_above_1000_lux() {
    let limit = CORRECTION_THRESHOLD_LUX * FACTOR_SCALE;
    for (it, _) in TIMES {
        for gain in [Gain::OneEighth, Gain::OneQuarter] {
            let factor = lux_raw_conversion_factor(it, gain);
            let first = limit / factor + 1;
            if first <= u32::from(u16::MAX) {
                assert!(needs_high_lux_correction(it, gain, first as u16));
                assert!(!needs_high_lux_correction(it, gain, (first - 1) as u16));
            } else {
                assert!(!needs_high_lux_correction(it, gain, u16::MAX));
            }
        }
    }
    // 543 counts at 1.8432 lx are 1000.8576 lx; 542 counts are 999.0144 lx
    assert!(needs_high_lux_correction(IntegrationTime::Ms25, Gain::OneEighth, 543));
    assert!(!needs_high_lux_correction(IntegrationTime::Ms25, Gain::OneEighth, 542));
    assert!(!needs_high_lux_correction(IntegrationTime::Ms25, Gain::OneEighth, 0));
}
