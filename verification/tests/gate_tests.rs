//! The adaptive trigger gate: warmup, cooldown, the probability floor,
//! the top-two extraction, and the class table.

use qnmdsol::classifier::{map_class_to_mapping_helper, top2_probs, top_class, PROB_ONE};
use qnmdsol::gate::AdaptiveGate;
use qnmdsol::types::{MappingHelperCommand, NeuroGptGateParams};

#[test]
fn no_fire_during_warmup_whatever_the_margin() {
    // The default warmup is thirty updates: the first twenty-nine calls
    // never fire, even with a maximal margin and probability.
    let mut g = AdaptiveGate::new();
    for i in 0..29u64 {
        assert!(!g.update_and_decide(PROB_ONE, 0, 1000 + 200 * i));
    }
}

#[test]
fn cooldown_allows_at_most_one_fire_per_window() {
    let mut g = AdaptiveGate::new();
    g.set_params(NeuroGptGateParams { warmup: 0, cooldown_ms: 400, min_prob: 0, k_sigma: 0 });
    let fire1 = g.update_and_decide(900000, 400000, 1000);
    assert!(fire1);
    // A second tick 200 ms later sits inside the cooldown window.
    let fire2 = g.update_and_decide(900000, 400000, 1200);
    assert!(!fire2);
    // Once the window has passed, the adaptive gate may fire again.
    let fire3 = g.update_and_decide(900000, 400000, 1400);
    assert!(fire3);
}

#[test]
fn probability_floor_blocks_low_confidence() {
    let mut g = AdaptiveGate::new();
    g.set_params(NeuroGptGateParams { warmup: 0, cooldown_ms: 0, min_prob: 600000, k_sigma: 0 });
    assert!(!g.update_and_decide(599999, 100000, 0));
    assert!(g.update_and_decide(600000, 100000, 1));
}

#[test]
fn margin_must_stand_out_from_the_baseline() {
    let mut g = AdaptiveGate::new();
    g.set_params(NeuroGptGateParams { warmup: 0, cooldown_ms: 0, min_prob: 0, k_sigma: 500 });
    // Feed a noisy baseline of small margins.
    let mut t: u64 = 0;
    for i in 0..200i64 {
        let m: i64 = 10000 + (i % 7) * 3000;
        g.update_and_decide(500000 + m, 500000, t);
        t += 200;
    }
    // An ordinary small margin does not fire; a far outlier does.
    assert!(!g.update_and_decide(505000, 500000, t));
    assert!(g.update_and_decide(990000, 10000, t + 200));
}

#[test]
fn decide_hands_back_the_command_on_fire() {
    let mut g = AdaptiveGate::new();
    g.set_params(NeuroGptGateParams { warmup: 0, cooldown_ms: 0, min_prob: 0, k_sigma: 0 });
    let probs = vec![100000i64, 800000, 100000];
    let r = g.decide(&probs, MappingHelperCommand::PulseLeftStickRight, 0);
    assert_eq!(r, Some(MappingHelperCommand::PulseLeftStickRight));
    let empty: Vec<i64> = Vec::new();
    assert_eq!(g.decide(&empty, MappingHelperCommand::PulseA, 1), None);
}

#[test]
fn reset_baseline_skips_warmup() {
    let mut g = AdaptiveGate::new();
    g.set_params(NeuroGptGateParams { warmup: 30, cooldown_ms: 0, min_prob: 0, k_sigma: 500 });
    g.reset_baseline(100000, 1000000);
    // Immediately eligible: a margin far above the baseline fires on the
    // first tick after calibration.
    assert!(g.update_and_decide(900000, 0, 0));
}

#[test]
fn top2_orders_the_two_largest() {
    assert_eq!(top2_probs(&vec![500000, 300000, 200000]), Some((500000, 300000)));
    assert_eq!(top2_probs(&vec![100000, 900000]), Some((900000, 100000)));
    assert_eq!(top2_probs(&vec![700000, 700000]), Some((700000, 700000)));
    assert_eq!(top2_probs(&vec![400000]), Some((400000, 0)));
    let empty: Vec<i64> = Vec::new();
    assert_eq!(top2_probs(&empty), None);
}

#[test]
fn top_class_takes_the_last_maximum() {
    assert_eq!(top_class(&vec![100, 900, 900]), Some(2));
    assert_eq!(top_class(&vec![900, 100, 100]), Some(0));
    let empty: Vec<i64> = Vec::new();
    assert_eq!(top_class(&empty), None);
}

#[test]
fn class_table_covers_exactly_three_classes() {
    assert_eq!(map_class_to_mapping_helper(0), Some(MappingHelperCommand::PulseLeftStickLeft));
    assert_eq!(map_class_to_mapping_helper(1), Some(MappingHelperCommand::PulseLeftStickRight));
    assert_eq!(map_class_to_mapping_helper(2), Some(MappingHelperCommand::PulseLeftStickUp));
    assert_eq!(map_class_to_mapping_helper(3), None);
    assert_eq!(map_class_to_mapping_helper(17), None);
}
