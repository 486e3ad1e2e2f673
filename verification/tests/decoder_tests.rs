//! The deterministic pattern decoder: the exact rule table, additive axis
//! cancellation, guarded indices, and the simulator's matching channel
//! sets.

use qnmdsol::decoder::{process_neural_intent, sim_activation, SIM_BUMP};
use qnmdsol::types::SimInputIntent;

const THRESHOLD: i64 = 150000;

fn samples(active: &[usize]) -> Vec<i64> {
    let mut v = vec![0i64; 16];
    for &i in active {
        v[i] = 500000;
    }
    v
}

#[test]
fn forward_pattern_gives_exactly_plus_one_forward() {
    // Zero everywhere except channels {0, 4, 8} at 500 uV, threshold
    // 150 uV: the forward axis contribution is exactly one unit and no
    // other effect is active.
    let gp = process_neural_intent(&samples(&[0, 4, 8]), THRESHOLD);
    assert_eq!(gp.ly, 1);
    assert_eq!(gp.lx, 0);
    assert_eq!(gp.rx, 0);
    assert_eq!(gp.ry, 0);
    assert!(!gp.a && !gp.b && !gp.x && !gp.y);
    assert!(!gp.lb && !gp.rb && !gp.lt && !gp.rt);
    assert!(!gp.back && !gp.start && !gp.ls && !gp.rs);
    assert!(!gp.dpad_up && !gp.dpad_down && !gp.dpad_left && !gp.dpad_right);
}

#[test]
fn opposing_rules_cancel_to_zero() {
    // Forward {0,4,8} and backward {1,5,9} both active: the axis nets to
    // exactly zero.
    let gp = process_neural_intent(&samples(&[0, 4, 8, 1, 5, 9]), THRESHOLD);
    assert_eq!(gp.ly, 0);
}

#[test]
fn negative_amplitudes_count_as_active() {
    let mut v = vec![0i64; 16];
    v[0] = -500000;
    v[4] = -500000;
    v[8] = 500000;
    let gp = process_neural_intent(&v, THRESHOLD);
    assert_eq!(gp.ly, 1);
}

#[test]
fn amplitude_at_threshold_is_inactive() {
    let mut v = vec![0i64; 16];
    v[0] = THRESHOLD;
    v[4] = THRESHOLD + 1;
    v[8] = THRESHOLD + 1;
    let gp = process_neural_intent(&v, THRESHOLD);
    assert_eq!(gp.ly, 0);
}

#[test]
fn face_buttons_fire_on_their_sets() {
    let gp = process_neural_intent(&samples(&[0, 1, 2]), THRESHOLD);
    assert!(gp.a);
    assert!(!gp.b);
    let gp = process_neural_intent(&samples(&[9, 10, 11]), THRESHOLD);
    assert!(gp.y);
}

#[test]
fn shoulder_rules_require_neutral_right_stick() {
    // {0, 15} with the right stick neutral raises lb.
    let gp = process_neural_intent(&samples(&[0, 15]), THRESHOLD);
    assert!(gp.lb);
    // Adding {12} makes {12, 0} active, moving the right stick, which
    // suppresses lb.
    let gp = process_neural_intent(&samples(&[0, 15, 12]), THRESHOLD);
    assert_eq!(gp.ry, 1);
    assert!(!gp.lb);
}

#[test]
fn short_vector_never_faults_and_decodes_present_channels() {
    let v = vec![500000i64, 500000, 500000];
    let gp = process_neural_intent(&v, THRESHOLD);
    assert!(gp.a);
    assert_eq!(gp.ly, 0);
    let empty: Vec<i64> = Vec::new();
    let gp = process_neural_intent(&empty, THRESHOLD);
    assert_eq!(gp, qnmdsol::types::GamepadState::default());
}

#[test]
fn simulator_activates_the_decoder_rule_sets() {
    // Each simulated key drives exactly the channel set its decoder rule
    // expects, so decoding the synthetic vector yields that effect.
    let mut sim = SimInputIntent::default();
    sim.w = true;
    let data = sim_activation(&sim);
    assert_eq!(data.len(), 16);
    assert_eq!(data[0], SIM_BUMP);
    assert_eq!(data[4], SIM_BUMP);
    assert_eq!(data[8], SIM_BUMP);
    assert_eq!(data[1], 0);
    let gp = process_neural_intent(&data, THRESHOLD);
    assert_eq!(gp.ly, 1);

    let mut sim = SimInputIntent::default();
    sim.space = true;
    let gp = process_neural_intent(&sim_activation(&sim), THRESHOLD);
    assert!(gp.a);

    // Overlapping keys accumulate.
    let mut sim = SimInputIntent::default();
    sim.w = true;
    sim.space = true;
    let data = sim_activation(&sim);
    assert_eq!(data[0], 2 * SIM_BUMP);
}
