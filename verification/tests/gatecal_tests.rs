//! The adaptive gate's self-calibration: sorting, the exact derivation on known
//! data, and the empirical trigger rate the derived tunables produce on a
//! held-out stream from the same distribution.

use qnmdsol::gate::AdaptiveGate;
use qnmdsol::gatecal::{sort_i64, GateCalibrationSession};
use qnmdsol::types::NeuroGptGateParams;

#[test]
fn sort_orders_ascending_and_keeps_elements() {
    let v = vec![5i64, 1, 4, 1, 3, 9, 2];
    let s = sort_i64(&v);
    assert_eq!(s, vec![1, 1, 2, 3, 4, 5, 9]);
    let empty: Vec<i64> = Vec::new();
    assert_eq!(sort_i64(&empty), empty);
}

#[test]
fn derivation_on_known_distribution_is_exact() {
    // A ten-second window targeting six triggers per minute over margins
    // 0, 1000, ..., 100000: the exceed probability is 0.02, so the 0.98
    // quantile (index 98) is read, giving k_sigma = (98000 - mean) * 1000
    // / std, and the eightieth percentile of the top probabilities sets
    // the floor.
    let mut s = GateCalibrationSession::begin(0, 10, 6000);
    assert_eq!(s.end_ms, 10000);
    for k in 0..=100i64 {
        s.observe(k * 1000, 0);
    }
    let sm = sort_i64(&s.margins);
    let st = sort_i64(&s.top1s);
    let out = s.derive(&sm, &st);
    assert_eq!(out.mean, 50000);
    assert_eq!(out.var, 850000000);
    // std = isqrt(850000000) = 29154; (98000 - 50000) * 1000 / 29154 = 1646.
    assert_eq!(out.k_sigma, 1646);
    // The eightieth percentile of the collected top probabilities is
    // 80000, which the floor clamp raises to 0.4.
    assert_eq!(out.min_prob, Some(400000));
}

#[test]
fn empty_window_falls_back_to_clamped_defaults() {
    let s = GateCalibrationSession::begin(0, 10, 6000);
    let sm = sort_i64(&s.margins);
    let st = sort_i64(&s.top1s);
    let out = s.derive(&sm, &st);
    // No samples: mean and variance are zero, the quantile falls back to
    // the mean, and k_sigma lands on its lower clamp; no floor is derived.
    assert_eq!(out.mean, 0);
    assert_eq!(out.var, 0);
    assert_eq!(out.k_sigma, 500);
    assert_eq!(out.min_prob, None);
}

#[test]
fn window_duration_and_target_are_clamped() {
    let s = GateCalibrationSession::begin(500, 1, -5000);
    assert_eq!(s.end_ms, 500 + 3000);
    assert_eq!(s.target_per_min_milli, 0);
    let s = GateCalibrationSession::begin(500, 600, 99000000);
    assert_eq!(s.end_ms, 500 + 60000);
    assert_eq!(s.target_per_min_milli, 60000000);
}

#[test]
fn progress_runs_from_zero_to_one() {
    let s = GateCalibrationSession::begin(1000, 10, 6000);
    assert_eq!(s.progress_ppm(500), 0);
    assert_eq!(s.progress_ppm(1000), 0);
    assert_eq!(s.progress_ppm(6000), 500000);
    assert_eq!(s.progress_ppm(11000), 1000000);
    assert_eq!(s.progress_ppm(20000), 1000000);
}

#[test]
fn derived_tunables_approximate_the_target_rate() {
    // Collect an exponential margin distribution (mean 0.025) for a
    // sixty-second window targeting twelve triggers per minute — an
    // exceed probability of 0.04 at five ticks per second. Then replay a
    // ten-minute held-out stream from the same distribution and check the
    // empirical fire rate stays within tolerance of the target: the
    // moving baseline updates on the very sample it judges, which thins
    // the rate, so the tolerance spans 0.5 to 10 percent per tick
    // around the targeted 4 percent.
    let mut rng: u64 = 0x2545F4914F6CDD1D;
    let mut next_margin = || {
        rng = rng.wrapping_mul(6364136223846793005).wrapping_add(1442695040888963407);
        let u = ((rng >> 33) as f64 + 1.0) / 2147483649.0;
        let m = (-25000.0 * u.ln()) as i64;
        m.clamp(0, 500000)
    };
    let mut s = GateCalibrationSession::begin(0, 60, 12000);
    let mut gate = AdaptiveGate::new();
    for i in 0..300u64 {
        let m = next_margin();
        s.observe(900000, 900000 - m);
        gate.update_and_decide(900000, 900000 - m, i * 200);
    }
    let sm = sort_i64(&s.margins);
    let st = sort_i64(&s.top1s);
    let out = s.derive(&sm, &st);
    let mut p = gate.params();
    p.k_sigma = out.k_sigma;
    if let Some(mp) = out.min_prob {
        p.min_prob = mp;
    }
    // Open the cooldown so the count reflects the threshold alone.
    gate.set_params(NeuroGptGateParams { cooldown_ms: 0, ..p });
    gate.reset_baseline(out.mean, out.var);

    let mut fires = 0u32;
    let held_out = 3000u64;
    for i in 0..held_out {
        let m = next_margin();
        if gate.update_and_decide(900000, 900000 - m, 100000 + i * 200) {
            fires += 1;
        }
    }
    assert!(fires >= 15, "fired only {} times in {} ticks", fires, held_out);
    assert!(fires <= 300, "fired {} times in {} ticks", fires, held_out);
}
