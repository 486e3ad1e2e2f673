//! The deterministic pattern decoder: maps co-activated channel sets of a
//! cleaned sample vector to a control intent, and the synthetic signal
//! generator that drives the very same channel sets in simulation mode.
//!
//! A channel is active iff its amplitude magnitude exceeds the threshold.
//! A rule fires iff every channel of its set is active; axis rules add their
//! contributions (opposing rules cancel to zero), button rules are
//! independent flags. Channel indices outside the vector count as inactive,
//! never as a fault.

use vstd::prelude::*;
use crate::types::GamepadState;
use crate::types::SimInputIntent;

verus! {

/// Amplitude a simulated key press adds to each channel of its set:
/// 500 microvolts in thousandths of a microvolt.
pub const SIM_BUMP: i64 = 500000;

pub open spec fn b2i(b: bool) -> int {
    if b {
        1
    } else {
        0
    }
}

/// Channel `i` is active: it exists and its magnitude exceeds `thr`.
pub open spec fn spec_active(data: Seq<i64>, thr: int, i: int) -> bool {
    &&& 0 <= i < data.len()
    &&& (data[i] > thr || data[i] < -thr)
}

/// A three-channel rule set is fully active.
pub open spec fn spec_pat3(data: Seq<i64>, thr: int, i: int, j: int, k: int) -> bool {
    spec_active(data, thr, i) && spec_active(data, thr, j) && spec_active(data, thr, k)
}

/// A two-channel rule set is fully active.
pub open spec fn spec_pat2(data: Seq<i64>, thr: int, i: int, j: int) -> bool {
    spec_active(data, thr, i) && spec_active(data, thr, j)
}

/// The full rule table: which intent a cleaned sample vector decodes to.
///
/// Left stick: forward {0,4,8}, backward {1,5,9}, left {2,6,10},
/// right {3,7,11}. Face buttons: a {0,1,2}, b {3,4,5}, x {6,7,8},
/// y {9,10,11}. Right stick: up {12,0}, down {13,1}, left {14,2},
/// right {15,3}. Shoulder/trigger rules require the paired right-stick axis
/// to have netted to zero: lb {0,15}, rb {2,13}, lt {1,14}, rt {3,12}.
pub open spec fn spec_intent(data: Seq<i64>, thr: int) -> GamepadState {
    let ly = b2i(spec_pat3(data, thr, 0, 4, 8)) - b2i(spec_pat3(data, thr, 1, 5, 9));
    let lx = b2i(spec_pat3(data, thr, 3, 7, 11)) - b2i(spec_pat3(data, thr, 2, 6, 10));
    let ry = b2i(spec_pat2(data, thr, 12, 0)) - b2i(spec_pat2(data, thr, 13, 1));
    let rx = b2i(spec_pat2(data, thr, 15, 3)) - b2i(spec_pat2(data, thr, 14, 2));
    GamepadState {
        lx: lx as i32,
        ly: ly as i32,
        rx: rx as i32,
        ry: ry as i32,
        a: spec_pat3(data, thr, 0, 1, 2),
        b: spec_pat3(data, thr, 3, 4, 5),
        x: spec_pat3(data, thr, 6, 7, 8),
        y: spec_pat3(data, thr, 9, 10, 11),
        lb: spec_pat2(data, thr, 0, 15) && ry == 0,
        rb: spec_pat2(data, thr, 2, 13) && rx == 0,
        lt: spec_pat2(data, thr, 1, 14) && rx == 0,
        rt: spec_pat2(data, thr, 3, 12) && ry == 0,
        back: false,
        start: false,
        ls: false,
        rs: false,
        dpad_up: false,
        dpad_down: false,
        dpad_left: false,
        dpad_right: false,
    }
}

fn is_active(data: &Vec<i64>, thr: i64, idx: usize) -> (r: bool)
    requires
        thr >= 1,
    ensures
        r == spec_active(data@, thr as int, idx as int),
{
    if idx < data.len() {
        let v = data[idx];
        v > thr || v < -thr
    } else {
        false
    }
}

/// Decodes one cleaned sample vector into a control intent, for a positive
/// activation threshold; stateless, so identical inputs always decode to
/// identical intents.
pub fn process_neural_intent(data: &Vec<i64>, threshold: i64) -> (gp: GamepadState)
    requires
        threshold >= 1,
    ensures
        gp == spec_intent(data@, threshold as int),
{
    let fwd = is_active(data, threshold, 0) && is_active(data, threshold, 4) && is_active(
        data,
        threshold,
        8,
    );
    let back = is_active(data, threshold, 1) && is_active(data, threshold, 5) && is_active(
        data,
        threshold,
        9,
    );
    let left = is_active(data, threshold, 2) && is_active(data, threshold, 6) && is_active(
        data,
        threshold,
        10,
    );
    let right = is_active(data, threshold, 3) && is_active(data, threshold, 7) && is_active(
        data,
        threshold,
        11,
    );
    let btn_a = is_active(data, threshold, 0) && is_active(data, threshold, 1) && is_active(
        data,
        threshold,
        2,
    );
    let btn_b = is_active(data, threshold, 3) && is_active(data, threshold, 4) && is_active(
        data,
        threshold,
        5,
    );
    let btn_x = is_active(data, threshold, 6) && is_active(data, threshold, 7) && is_active(
        data,
        threshold,
        8,
    );
    let btn_y = is_active(data, threshold, 9) && is_active(data, threshold, 10) && is_active(
        data,
        threshold,
        11,
    );
    let r_up = is_active(data, threshold, 12) && is_active(data, threshold, 0);
    let r_down = is_active(data, threshold, 13) && is_active(data, threshold, 1);
    let r_left = is_active(data, threshold, 14) && is_active(data, threshold, 2);
    let r_right = is_active(data, threshold, 15) && is_active(data, threshold, 3);

    let ly: i32 = (if fwd {
        1
    } else {
        0
    }) - (if back {
        1
    } else {
        0
    });
    let lx: i32 = (if right {
        1
    } else {
        0
    }) - (if left {
        1
    } else {
        0
    });
    let ry: i32 = (if r_up {
        1
    } else {
        0
    }) - (if r_down {
        1
    } else {
        0
    });
    let rx: i32 = (if r_right {
        1
    } else {
        0
    }) - (if r_left {
        1
    } else {
        0
    });

    // Shoulder and trigger rules, gated on the right stick having netted to
    // zero.
    let lb = is_active(data, threshold, 0) && is_active(data, threshold, 15) && ry == 0;
    let rb = is_active(data, threshold, 2) && is_active(data, threshold, 13) && rx == 0;
    let lt = is_active(data, threshold, 1) && is_active(data, threshold, 14) && rx == 0;
    let rt = is_active(data, threshold, 3) && is_active(data, threshold, 12) && ry == 0;

    GamepadState {
        lx,
        ly,
        rx,
        ry,
        a: btn_a,
        b: btn_b,
        x: btn_x,
        y: btn_y,
        lb,
        rb,
        lt,
        rt,
        back: false,
        start: false,
        ls: false,
        rs: false,
        dpad_up: false,
        dpad_down: false,
        dpad_left: false,
        dpad_right: false,
    }
}

/// Opposing axis rules that are simultaneously active net the axis to
/// exactly zero; this holds for both sticks and both axes.
pub proof fn lemma_opposing_rules_cancel(data: Seq<i64>, thr: int)
    ensures
        spec_pat3(data, thr, 0, 4, 8) && spec_pat3(data, thr, 1, 5, 9) ==> spec_intent(
            data,
            thr,
        ).ly == 0,
        spec_pat3(data, thr, 3, 7, 11) && spec_pat3(data, thr, 2, 6, 10) ==> spec_intent(
            data,
            thr,
        ).lx == 0,
        spec_pat2(data, thr, 12, 0) && spec_pat2(data, thr, 13, 1) ==> spec_intent(
            data,
            thr,
        ).ry == 0,
        spec_pat2(data, thr, 15, 3) && spec_pat2(data, thr, 14, 2) ==> spec_intent(
            data,
            thr,
        ).rx == 0,
{
}

/// The amplitude the synthetic generator gives channel `i` for simulated
/// key intent `sim`: `SIM_BUMP` per pressed key whose channel set contains
/// `i`. The sets are exactly the decoder's rule sets.
pub open spec fn spec_sim_amp(sim: SimInputIntent, i: int) -> int {
    if i == 0 {
        SIM_BUMP * (b2i(sim.w) + b2i(sim.space))
    } else if i == 1 {
        SIM_BUMP * (b2i(sim.s) + b2i(sim.space))
    } else if i == 2 {
        SIM_BUMP * (b2i(sim.a) + b2i(sim.space))
    } else if i == 3 {
        SIM_BUMP * (b2i(sim.d) + b2i(sim.key_z))
    } else if i == 4 {
        SIM_BUMP * (b2i(sim.w) + b2i(sim.key_z))
    } else if i == 5 {
        SIM_BUMP * (b2i(sim.s) + b2i(sim.key_z))
    } else if i == 6 {
        SIM_BUMP * (b2i(sim.a) + b2i(sim.key_x))
    } else if i == 7 {
        SIM_BUMP * (b2i(sim.d) + b2i(sim.key_x))
    } else if i == 8 {
        SIM_BUMP * (b2i(sim.w) + b2i(sim.key_x))
    } else if i == 9 {
        SIM_BUMP * (b2i(sim.s) + b2i(sim.key_c))
    } else if i == 10 {
        SIM_BUMP * (b2i(sim.a) + b2i(sim.key_c))
    } else if i == 11 {
        SIM_BUMP * (b2i(sim.d) + b2i(sim.key_c))
    } else {
        0
    }
}

fn bump2(k1: bool, k2: bool) -> (v: i64)
    ensures
        v == SIM_BUMP * (b2i(k1) + b2i(k2)),
{
    let mut v: i64 = 0;
    if k1 {
        v = v + SIM_BUMP;
    }
    if k2 {
        v = v + SIM_BUMP;
    }
    v
}

/// Generates the synthetic sixteen-channel sample vector for a simulated
/// key intent: each pressed movement or face key raises exactly the channel
/// set the decoder's corresponding rule expects.
pub fn sim_activation(sim: &SimInputIntent) -> (data: Vec<i64>)
    ensures
        data@.len() == 16,
        forall|i: int| 0 <= i < 16 ==> data@[i] == spec_sim_amp(*sim, i),
{
    let mut data: Vec<i64> = Vec::new();
    data.push(bump2(sim.w, sim.space));
    data.push(bump2(sim.s, sim.space));
    data.push(bump2(sim.a, sim.space));
    data.push(bump2(sim.d, sim.key_z));
    data.push(bump2(sim.w, sim.key_z));
    data.push(bump2(sim.s, sim.key_z));
    data.push(bump2(sim.a, sim.key_x));
    data.push(bump2(sim.d, sim.key_x));
    data.push(bump2(sim.w, sim.key_x));
    data.push(bump2(sim.s, sim.key_c));
    data.push(bump2(sim.a, sim.key_c));
    data.push(bump2(sim.d, sim.key_c));
    data.push(0);
    data.push(0);
    data.push(0);
    data.push(0);
    data
}

} // verus!
