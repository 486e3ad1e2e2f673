//! Behavior of the per-channel IIR filter bank: DC rejection, notch
//! rejection, channel isolation, and guarded out-of-range channels.

use qnmdsol::filter::{calc_coeffs, FilterBank, AMP_LIMIT, Q_HIGHPASS_FP, Q_NOTCH_FP};

fn to_units(microvolts: f64) -> i64 {
    (microvolts * 1000.0).round() as i64
}

#[test]
fn highpass_removes_constant_offset() {
    // A constant 500 uV offset must decay toward zero at the output.
    let mut bank = FilterBank::new(16, 250);
    let mut last: i64 = 0;
    let mut after_one: i64 = 0;
    for tick in 0..2500 {
        last = bank.process_sample(0, to_units(500.0));
        if tick == 1 {
            after_one = last;
        }
        assert!(last.abs() <= AMP_LIMIT);
    }
    // Early output still carries most of the step; after ten seconds the
    // offset is gone to within a microvolt.
    assert!(after_one.abs() > to_units(100.0));
    assert!(last.abs() < to_units(1.0));
}

#[test]
fn zero_input_gives_zero_output() {
    let mut bank = FilterBank::new(16, 250);
    for _ in 0..100 {
        assert_eq!(bank.process_sample(3, 0), 0);
    }
}

#[test]
fn notch_attenuates_mains_frequency() {
    // A 50 Hz sinusoid is attenuated by a large factor relative to a
    // 25 Hz sinusoid (one octave below) of the same amplitude.
    let fs = 250.0f64;
    let amp_uv = 100.0f64;
    let peak_of = |freq: f64| -> i64 {
        let mut bank = FilterBank::new(16, 250);
        let mut peak: i64 = 0;
        for i in 0..2500 {
            let t = i as f64 / fs;
            let x = to_units(amp_uv * (2.0 * std::f64::consts::PI * freq * t).sin());
            let y = bank.process_sample(0, x);
            if i >= 2250 {
                peak = peak.max(y.abs());
            }
        }
        peak
    };
    let at_notch = peak_of(50.0);
    let off_notch = peak_of(25.0);
    assert!(off_notch > to_units(50.0));
    assert!(at_notch * 20 < off_notch);
}

#[test]
fn channels_do_not_crosstalk() {
    // Driving channel 0 hard leaves channel 1's output exactly zero.
    let mut bank = FilterBank::new(16, 250);
    for i in 0..500 {
        let x = to_units(if i % 2 == 0 { 400.0 } else { -400.0 });
        bank.process_sample(0, x);
        assert_eq!(bank.process_sample(1, 0), 0);
    }
}

#[test]
fn out_of_range_channel_returns_input() {
    let mut bank = FilterBank::new(16, 250);
    assert_eq!(bank.process_sample(16, 12345), 12345);
    assert_eq!(bank.process_sample(100, -777), -777);
}

#[test]
fn coefficients_have_zero_dc_numerator_for_highpass() {
    let s = calc_coeffs(250, 3, Q_HIGHPASS_FP, true);
    assert_eq!(s.b0 + s.b1 + s.b2, 0);
    assert!(s.a0 > 0);
    assert_eq!(s.x1, 0);
    assert_eq!(s.y1, 0);
}

#[test]
fn cookbook_derivation_gives_exact_fixed_point_coefficients() {
    // The coefficient formula at 250 Hz, worked through by hand in the
    // 2^20 fixed point: the 3 Hz highpass and the 50 Hz notch.
    let s = calc_coeffs(250, 3, Q_HIGHPASS_FP, true);
    assert_eq!(
        (s.b0, s.b1, s.b2, s.a0, s.a1, s.a2),
        (1047086, -2094172, 1047086, 1104435, -2091194, 992717)
    );
    let s = calc_coeffs(250, 50, Q_NOTCH_FP, false);
    assert_eq!(
        (s.b0, s.b1, s.b2, s.a0, s.a1, s.a2),
        (1048576, -648058, 1048576, 1098438, -648058, 998714)
    );
}

#[test]
fn notch_coefficients_are_symmetric() {
    let s = calc_coeffs(250, 50, Q_NOTCH_FP, false);
    assert_eq!(s.b0, s.b2);
    assert_eq!(s.b1, s.a1);
}
