//! The orchestration engine: command handling, the tick pipeline, replay
//! determinism, the classifier path with gate calibration, and the
//! virtual-gamepad mappings.

use qnmdsol::engine::{
    apply_fire_to_intent, auto_cycle_gamepad, auto_cycle_sim, axis_to_vjoy,
    mapping_helper_gamepad, mapping_helper_sim, Engine, CHANNEL_COUNT, DEFAULT_THRESHOLD,
};
use qnmdsol::types::{CalibrationTarget, ConnectionMode, GamepadState, MappingHelperCommand};

fn streaming_engine() -> Engine {
    let mut e = Engine::new();
    e.on_connected(ConnectionMode::Simulation, 250);
    e.start_stream();
    e
}

fn raw_sequence(ticks: usize) -> Vec<Vec<i64>> {
    let mut rng: u64 = 42;
    let mut seq = Vec::new();
    for _ in 0..ticks {
        let mut v = vec![0i64; CHANNEL_COUNT];
        for x in v.iter_mut() {
            rng = rng.wrapping_mul(6364136223846793005).wrapping_add(1442695040888963407);
            *x = ((rng >> 33) % 1000001) as i64 - 500000;
        }
        seq.push(v);
    }
    seq
}

#[test]
fn replaying_a_recorded_sequence_gives_identical_intents() {
    // Two freshly reset engines fed the identical raw sample sequence
    // produce the identical intent sequence: no hidden state.
    let seq = raw_sequence(200);
    let mut e1 = streaming_engine();
    let mut e2 = streaming_engine();
    for (i, raw) in seq.iter().enumerate() {
        let o1 = e1.process_tick(raw, i as u64 * 4);
        let o2 = e2.process_tick(raw, i as u64 * 4);
        assert_eq!(o1.intent, o2.intent);
    }
}

#[test]
fn ticks_are_ignored_while_not_streaming() {
    let mut e = Engine::new();
    let raw = vec![500000i64; CHANNEL_COUNT];
    let out = e.process_tick(&raw, 0);
    assert_eq!(out.intent, GamepadState::default());
    assert!(out.calibration_result.is_none());
}

#[test]
fn wrong_channel_count_is_a_guarded_no_op() {
    let mut e = streaming_engine();
    let raw = vec![500000i64; 7];
    let out = e.process_tick(&raw, 0);
    assert_eq!(out.intent, GamepadState::default());
}

#[test]
fn threshold_updates_apply_to_the_next_tick() {
    let mut e = streaming_engine();
    assert_eq!(e.threshold, DEFAULT_THRESHOLD);
    e.set_threshold(400000);
    assert_eq!(e.threshold, 400000);
    // Values outside the positive amplitude range are clamped.
    e.set_threshold(-5);
    assert_eq!(e.threshold, 1);
}

#[test]
fn reconnect_at_same_rate_keeps_filter_state() {
    let mut e = streaming_engine();
    let raw = vec![400000i64; CHANNEL_COUNT];
    e.process_tick(&raw, 0);
    let y1 = e.filters.hp[0].y1;
    assert_ne!(y1, 0);
    e.disconnect();
    e.on_connected(ConnectionMode::Hardware, 250);
    assert_eq!(e.filters.hp[0].y1, y1);
    // A rate change rebuilds the bank with zeroed registers.
    e.on_connected(ConnectionMode::Hardware, 125);
    assert_eq!(e.filters.hp[0].y1, 0);
    assert_eq!(e.sample_rate_hz, 125);
}

#[test]
fn disconnect_tears_down_calibration_sessions() {
    let mut e = streaming_engine();
    e.start_calibration(CalibrationTarget::Relax, 100);
    e.begin_gate_calibration(10, 6000, 100);
    assert!(e.calib.is_some());
    assert!(e.gate_calib.is_some());
    e.disconnect();
    assert!(e.calib.is_none());
    assert!(e.gate_calib.is_none());
    assert!(!e.is_active && !e.is_streaming);
}

#[test]
fn calibration_result_flows_out_of_the_tick() {
    let mut e = streaming_engine();
    e.start_calibration(CalibrationTarget::Action, 0);
    let raw = vec![0i64; CHANNEL_COUNT];
    assert!(e.process_tick(&raw, 100).calibration_result.is_none());
    let r = e.process_tick(&raw, 3000).calibration_result.unwrap();
    assert_eq!(r.0, CalibrationTarget::Action);
    // Filtered all-zero input stays zero, so the captured maximum is zero.
    assert_eq!(r.1, 0);
    assert!(e.process_tick(&raw, 3004).calibration_result.is_none());
}

#[test]
fn classifier_rate_limiter_spaces_invocations() {
    let mut e = streaming_engine();
    assert!(e.classifier_due(1000));
    assert!(!e.classifier_due(1100));
    assert!(!e.classifier_due(1199));
    assert!(e.classifier_due(1200));
    assert!(!e.classifier_due(1300));
}

#[test]
fn unknown_class_changes_nothing_and_fires_nothing() {
    let mut e = streaming_engine();
    let count_before = e.gate.count;
    let out = e.on_classifier_result(5, 900000, 100000, 0);
    assert!(out.fired.is_none());
    assert!(out.progress_ppm.is_none());
    assert!(out.calibration.is_none());
    assert_eq!(e.gate.count, count_before);
}

#[test]
fn gate_calibration_window_reports_progress_and_retunes_the_gate() {
    let mut e = streaming_engine();
    e.begin_gate_calibration(10, 6000, 0);
    let mut tick: u64 = 0;
    let mut outcome = None;
    while outcome.is_none() {
        let now = tick * 200;
        let out = e.on_classifier_result(2, 900000, 850000, now);
        if now < 10000 {
            let p = out.progress_ppm.unwrap();
            assert!((0..=1000000).contains(&p));
        }
        outcome = out.calibration;
        tick += 1;
        assert!(tick < 100, "calibration window never finalized");
    }
    let out = outcome.unwrap();
    assert!(e.gate_calib.is_none());
    // The derived tunables were applied to the adaptive gate.
    assert_eq!(e.gate.k_sigma, out.k_sigma);
    assert_eq!(e.gate.ema, out.mean);
    if let Some(mp) = out.min_prob {
        assert_eq!(e.gate.min_prob, mp);
    }
    // Constant margins of 0.05 over the window: the measured mean is
    // exactly that, the variance zero, and k_sigma sits on its lower
    // clamp.
    assert_eq!(out.mean, 50000);
    assert_eq!(out.var, 0);
    assert_eq!(out.k_sigma, 500);
    assert_eq!(out.min_prob, Some(900000));
}

#[test]
fn fired_commands_steer_the_left_stick() {
    let gp = GamepadState::default();
    let fired = apply_fire_to_intent(gp, MappingHelperCommand::PulseLeftStickLeft);
    assert_eq!(fired.lx, -1);
    let fired = apply_fire_to_intent(gp, MappingHelperCommand::PulseLeftStickRight);
    assert_eq!(fired.lx, 1);
    let fired = apply_fire_to_intent(gp, MappingHelperCommand::PulseLeftStickUp);
    assert_eq!(fired.ly, -1);
    let fired = apply_fire_to_intent(gp, MappingHelperCommand::PulseA);
    assert_eq!(fired, gp);
}

#[test]
fn mapping_helper_tables_drive_single_effects() {
    let gp = mapping_helper_gamepad(MappingHelperCommand::PulseB);
    assert!(gp.b);
    assert!(!gp.a);
    let gp = mapping_helper_gamepad(MappingHelperCommand::PulseLeftStickUp);
    assert_eq!(gp.ly, -1);
    let gp = mapping_helper_gamepad(MappingHelperCommand::Off);
    assert_eq!(gp, GamepadState::default());
    assert!(auto_cycle_gamepad(0).a);
    assert!(auto_cycle_gamepad(7).dpad_down);
    assert_eq!(auto_cycle_gamepad(8).lx, -1);
    assert!(auto_cycle_gamepad(17).rs);
    // The cycle wraps modulo eighteen.
    assert!(auto_cycle_gamepad(18).a);
}

#[test]
fn simulation_helper_tables_press_single_keys() {
    assert!(mapping_helper_sim(MappingHelperCommand::PulseA).space);
    assert!(mapping_helper_sim(MappingHelperCommand::PulseLeftStickUp).w);
    assert_eq!(
        mapping_helper_sim(MappingHelperCommand::PulseBack),
        qnmdsol::types::SimInputIntent::default()
    );
    assert!(auto_cycle_sim(0).space);
    assert!(auto_cycle_sim(4).w);
    assert!(auto_cycle_sim(8).space);
}

#[test]
fn axis_mapping_spans_the_vjoy_range() {
    assert_eq!(axis_to_vjoy(-1), 0);
    assert_eq!(axis_to_vjoy(0), 16383);
    assert_eq!(axis_to_vjoy(1), 32767);
    // Accumulated contributions beyond one unit clamp to full deflection.
    assert_eq!(axis_to_vjoy(2), 32767);
    assert_eq!(axis_to_vjoy(-7), 0);
}
