//! Shared plain-value types of the pipeline: connection mode, calibration
//! target, the decoded control intent, simulated key intent, mapping-helper
//! commands, and the adaptive gate's tunable parameters.
//!
//! Amplitudes are integers in thousandths of a microvolt; probabilities are
//! integers in parts per million; `k_sigma` is in thousandths.

use vstd::prelude::*;

verus! {

#[derive(PartialEq, Eq, Structural, Clone, Copy, Debug)]
pub enum ConnectionMode {
    Simulation,
    Hardware,
}

#[derive(Clone, Copy, Debug, PartialEq, Eq, Structural)]
pub enum CalibrationTarget {
    Relax,
    Action,
}

/// Helper to generate virtual-gamepad input for controller mapping without
/// keyboard focus.
#[derive(Clone, Copy, Debug, PartialEq, Eq, Structural)]
pub enum MappingHelperCommand {
    Off,
    PulseA,
    PulseB,
    PulseX,
    PulseY,
    PulseLB,
    PulseRB,
    PulseLT,
    PulseRT,
    PulseBack,
    PulseStart,
    PulseLeftStickClick,
    PulseRightStickClick,
    PulseDpadUp,
    PulseDpadDown,
    PulseDpadLeft,
    PulseDpadRight,
    PulseLeftStickUp,
    PulseLeftStickDown,
    PulseLeftStickLeft,
    PulseLeftStickRight,
    PulseRightStickUp,
    PulseRightStickDown,
    PulseRightStickLeft,
    PulseRightStickRight,
    AutoCycle,
}

/// The decoded per-tick control intent: two stick axis pairs plus the
/// button flags. Axis values count additive rule contributions; one unit is
/// full deflection, and consumers clamp to `[-1, 1]` units.
#[derive(Clone, Copy, Debug, PartialEq, Eq, Structural)]
pub struct GamepadState {
    pub lx: i32,
    pub ly: i32,
    pub rx: i32,
    pub ry: i32,
    pub a: bool,
    pub b: bool,
    pub x: bool,
    pub y: bool,
    pub lb: bool,
    pub rb: bool,
    pub lt: bool,
    pub rt: bool,
    pub back: bool,
    pub start: bool,
    pub ls: bool,
    pub rs: bool,
    pub dpad_up: bool,
    pub dpad_down: bool,
    pub dpad_left: bool,
    pub dpad_right: bool,
}

impl GamepadState {
    /// The neutral state: axes centered, no button held.
    pub open spec fn spec_default() -> GamepadState {
        GamepadState {
            lx: 0,
            ly: 0,
            rx: 0,
            ry: 0,
            a: false,
            b: false,
            x: false,
            y: false,
            lb: false,
            rb: false,
            lt: false,
            rt: false,
            back: false,
            start: false,
            ls: false,
            rs: false,
            dpad_up: false,
            dpad_down: false,
            dpad_left: false,
            dpad_right: false,
        }
    }
}

impl Default for GamepadState {
    fn default() -> (gp: GamepadState)
        ensures
            gp == GamepadState::spec_default(),
    {
        GamepadState {
            lx: 0,
            ly: 0,
            rx: 0,
            ry: 0,
            a: false,
            b: false,
            x: false,
            y: false,
            lb: false,
            rb: false,
            lt: false,
            rt: false,
            back: false,
            start: false,
            ls: false,
            rs: false,
            dpad_up: false,
            dpad_down: false,
            dpad_left: false,
            dpad_right: false,
        }
    }
}

/// Simulated keyboard intent driving the synthetic signal generator.
#[derive(Clone, Copy, Debug, PartialEq, Eq, Structural)]
pub struct SimInputIntent {
    pub w: bool,
    pub a: bool,
    pub s: bool,
    pub d: bool,
    pub up: bool,
    pub down: bool,
    pub left: bool,
    pub right: bool,
    pub space: bool,
    pub key_z: bool,
    pub key_x: bool,
    pub key_c: bool,
    pub key_1: bool,
    pub key_2: bool,
    pub q: bool,
    pub e: bool,
    pub u: bool,
    pub o: bool,
    pub arrow_up: bool,
    pub arrow_down: bool,
    pub arrow_left: bool,
    pub arrow_right: bool,
}

impl SimInputIntent {
    pub open spec fn spec_default() -> SimInputIntent {
        SimInputIntent {
            w: false,
            a: false,
            s: false,
            d: false,
            up: false,
            down: false,
            left: false,
            right: false,
            space: false,
            key_z: false,
            key_x: false,
            key_c: false,
            key_1: false,
            key_2: false,
            q: false,
            e: false,
            u: false,
            o: false,
            arrow_up: false,
            arrow_down: false,
            arrow_left: false,
            arrow_right: false,
        }
    }
}

impl Default for SimInputIntent {
    fn default() -> (s: SimInputIntent)
        ensures
            s == SimInputIntent::spec_default(),
    {
        SimInputIntent {
            w: false,
            a: false,
            s: false,
            d: false,
            up: false,
            down: false,
            left: false,
            right: false,
            space: false,
            key_z: false,
            key_x: false,
            key_c: false,
            key_1: false,
            key_2: false,
            q: false,
            e: false,
            u: false,
            o: false,
            arrow_up: false,
            arrow_down: false,
            arrow_left: false,
            arrow_right: false,
        }
    }
}

/// Tunables of the adaptive trigger gate. `min_prob` is in parts per
/// million of probability; `k_sigma` is in thousandths.
#[derive(Clone, Copy, Debug, PartialEq, Eq, Structural)]
pub struct NeuroGptGateParams {
    pub warmup: u32,
    pub cooldown_ms: u64,
    pub min_prob: i64,
    pub k_sigma: i64,
}

/// A status snapshot of the classifier path, for the control layer:
/// whether a model session is loaded and from where, the last load or
/// inference error, how long ago an inference last succeeded, and the
/// trigger gate's current tunables.
#[derive(Clone, Debug)]
pub struct NeuroGptRuntimeStatus {
    pub onnx_loaded: bool,
    pub onnx_path: Option<String>,
    pub last_error: Option<String>,
    pub last_infer_ms_ago: Option<u64>,
    pub gate: NeuroGptGateParams,
}

} // verus!
