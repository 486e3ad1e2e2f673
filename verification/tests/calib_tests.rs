//! The amplitude-calibration controller: one exact result per window,
//! silence afterwards, and the running maximum over all channels.

use qnmdsol::calib::{CalibrationController, CALIB_WINDOW_MS};
use qnmdsol::types::CalibrationTarget;

#[test]
fn constant_stream_yields_exactly_one_result_with_that_amplitude() {
    // A constant-amplitude stream for exactly three simulated seconds
    // yields exactly one result equal to that amplitude.
    let amp: i64 = 200000;
    let mut c = CalibrationController::start(CalibrationTarget::Action, 1000);
    let data = vec![amp; 16];
    let mut results = Vec::new();
    let mut t: u64 = 1000;
    while t <= 1000 + CALIB_WINDOW_MS + 200 {
        if let Some(r) = c.observe(&data, t) {
            results.push((r.0, r.1, t));
        }
        t += 4;
    }
    assert_eq!(results.len(), 1);
    let (target, max, at) = results[0];
    assert_eq!(target, CalibrationTarget::Action);
    assert_eq!(max, amp);
    assert_eq!(at, 1000 + CALIB_WINDOW_MS);
}

#[test]
fn running_maximum_tracks_magnitude_over_all_channels() {
    let mut c = CalibrationController::start(CalibrationTarget::Relax, 0);
    let mut data = vec![0i64; 16];
    data[3] = -321000;
    assert!(c.observe(&data, 10).is_none());
    data[3] = 0;
    data[9] = 100000;
    let r = c.observe(&data, CALIB_WINDOW_MS).unwrap();
    assert_eq!(r.0, CalibrationTarget::Relax);
    assert_eq!(r.1, 321000);
}

#[test]
fn finished_session_stays_silent_until_restarted() {
    let mut c = CalibrationController::start(CalibrationTarget::Relax, 0);
    let data = vec![50000i64; 16];
    assert!(c.observe(&data, CALIB_WINDOW_MS).is_some());
    for k in 0..100u64 {
        assert!(c.observe(&data, CALIB_WINDOW_MS + 1 + k).is_none());
    }
    c = CalibrationController::start(CalibrationTarget::Relax, 10000);
    assert!(c.observe(&data, 10000 + CALIB_WINDOW_MS).is_some());
}

#[test]
fn empty_sample_vector_counts_as_zero_amplitude() {
    let mut c = CalibrationController::start(CalibrationTarget::Relax, 0);
    let empty: Vec<i64> = Vec::new();
    let r = c.observe(&empty, CALIB_WINDOW_MS).unwrap();
    assert_eq!(r.1, 0);
}
