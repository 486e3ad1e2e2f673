//! The orchestration core: the state that the acquisition worker drives and
//! every decision it makes per command, per sample tick and per classifier
//! tick. The worker around it only performs I/O: it reads samples, runs the
//! classifier, forwards commands, and writes the returned intents to the
//! virtual gamepad.
//!
//! Commands are applied before the tick's sample, samples are processed in
//! arrival order, and every transition is a pure function of the previous
//! state and the inputs, so a recorded session replays deterministically.

use vstd::prelude::*;
use crate::calib::CalibrationController;
use crate::classifier::spec_class_command;
use crate::classifier::map_class_to_mapping_helper;
use crate::classifier::PROB_ONE;
use crate::decoder::process_neural_intent;
use crate::decoder::spec_intent;
use crate::filter::BiquadState;
use crate::filter::FilterBank;
use crate::filter::AMP_LIMIT;
use crate::fixed::clamp_i64;
use crate::fixed::spec_clamp;
use crate::gate::AdaptiveGate;
use crate::gate::K_SIGMA_LIMIT;
use crate::gatecal::i64_leq;
use crate::gatecal::sort_i64;
use crate::gatecal::spec_derive;
use crate::gatecal::GateCalibrationOutcome;
use crate::gatecal::GateCalibrationSession;
use crate::types::CalibrationTarget;
use crate::types::ConnectionMode;
use crate::types::GamepadState;
use crate::types::MappingHelperCommand;
use crate::types::NeuroGptGateParams;
use crate::types::SimInputIntent;

verus! {

/// Channels every session runs with.
pub const CHANNEL_COUNT: usize = 16;

/// Default decoder activation threshold: 150 microvolts, in thousandths.
pub const DEFAULT_THRESHOLD: i64 = 150000;

/// Default sample rate assumed before a source reports one.
pub const DEFAULT_SAMPLE_RATE_HZ: u32 = 250;

/// Minimum spacing between classifier invocations, in milliseconds.
pub const INFER_INTERVAL_MS: u64 = 200;

/// What one sample tick produced.
pub struct TickOutcome {
    pub intent: GamepadState,
    pub calibration_result: Option<(CalibrationTarget, i64)>,
}

/// What one classifier tick produced.
pub struct ClassifierOutcome {
    pub fired: Option<MappingHelperCommand>,
    pub progress_ppm: Option<i64>,
    pub calibration: Option<GateCalibrationOutcome>,
}

/// The whole decision state of the pipeline worker.
pub struct Engine {
    pub mode: ConnectionMode,
    pub is_active: bool,
    pub is_streaming: bool,
    pub threshold: i64,
    pub sample_rate_hz: u32,
    pub filters: FilterBank,
    pub calib: Option<CalibrationController>,
    pub gate: AdaptiveGate,
    pub gate_calib: Option<GateCalibrationSession>,
    pub last_infer_ms: Option<u64>,
}

/// The per-channel highpass sections after one tick's sample vector.
pub open spec fn spec_seq_hp_stepped(hp: Seq<BiquadState>, raw: Seq<i64>) -> Seq<BiquadState> {
    Seq::new(hp.len(), |i: int| hp[i].spec_step(raw[i]))
}

/// The per-channel notch sections after one tick's sample vector: each is
/// fed its channel's highpass output.
pub open spec fn spec_seq_notch_stepped(
    hp: Seq<BiquadState>,
    notch: Seq<BiquadState>,
    raw: Seq<i64>,
) -> Seq<BiquadState> {
    Seq::new(notch.len(), |i: int| notch[i].spec_step(hp[i].spec_out(raw[i] as int) as i64))
}

/// The cleaned sample vector one tick produces from the banks' state.
pub open spec fn spec_seq_clean(hp: Seq<BiquadState>, notch: Seq<BiquadState>, raw: Seq<i64>) -> Seq<
    i64,
> {
    Seq::new(hp.len(), |i: int| notch[i].spec_out(hp[i].spec_out(raw[i] as int) as i64 as int) as i64)
}

/// The per-channel highpass sections after one tick's sample vector.
pub open spec fn spec_hp_stepped(bank: FilterBank, raw: Seq<i64>) -> Seq<BiquadState> {
    spec_seq_hp_stepped(bank.hp@, raw)
}

/// The per-channel notch sections after one tick's sample vector.
pub open spec fn spec_notch_stepped(bank: FilterBank, raw: Seq<i64>) -> Seq<BiquadState> {
    spec_seq_notch_stepped(bank.hp@, bank.notch@, raw)
}

/// The cleaned sample vector one tick produces from `bank`'s state.
pub open spec fn spec_clean(bank: FilterBank, raw: Seq<i64>) -> Seq<i64> {
    spec_seq_clean(bank.hp@, bank.notch@, raw)
}

/// The intent sequence a fresh session decodes from a raw sample-vector
/// sequence: each tick filters its vector with the current filter state
/// and decodes the cleaned vector with threshold `thr`.
pub open spec fn spec_replay_intents(
    hp: Seq<BiquadState>,
    notch: Seq<BiquadState>,
    thr: int,
    raws: Seq<Seq<i64>>,
) -> Seq<GamepadState>
    decreases raws.len(),
{
    if raws.len() == 0 {
        Seq::empty()
    } else {
        seq![spec_intent(spec_seq_clean(hp, notch, raws[0]), thr)] + spec_replay_intents(
            spec_seq_hp_stepped(hp, raws[0]),
            spec_seq_notch_stepped(hp, notch, raws[0]),
            thr,
            raws.drop_first(),
        )
    }
}

/// Round-trip determinism: two freshly built filter banks with the same
/// channel count and sample rate decode any raw sample-vector sequence to
/// the identical intent sequence — there is no hidden state beyond the
/// banks themselves.
pub proof fn lemma_replay_deterministic(
    b1: FilterBank,
    b2: FilterBank,
    channels: int,
    fs: int,
    thr: int,
    raws: Seq<Seq<i64>>,
)
    requires
        crate::filter::spec_fresh_bank(b1, channels, fs),
        crate::filter::spec_fresh_bank(b2, channels, fs),
    ensures
        spec_replay_intents(b1.hp@, b1.notch@, thr, raws) == spec_replay_intents(
            b2.hp@,
            b2.notch@,
            thr,
            raws,
        ),
{
    assert(b1.hp@ =~= b2.hp@);
    assert(b1.notch@ =~= b2.notch@);
}

/// Stability, the bounded half: whatever the input amplitudes, every
/// cleaned sample a well-formed bank emits lies within the amplitude
/// range, on every tick of any sequence.
pub proof fn lemma_clean_bounded(hp: Seq<BiquadState>, notch: Seq<BiquadState>, raw: Seq<i64>)
    ensures
        forall|i: int|
            0 <= i < spec_seq_clean(hp, notch, raw).len() ==> -AMP_LIMIT <= #[trigger] spec_seq_clean(
                hp,
                notch,
                raw,
            )[i] <= AMP_LIMIT,
{
}

/// The gamepad state one mapping-helper pulse holds while it lasts. Stick
/// pulses use the gamepad convention that up is the negative direction.
pub open spec fn spec_helper_gamepad(cmd: MappingHelperCommand) -> GamepadState {
    let gp = GamepadState::spec_default();
    match cmd {
        MappingHelperCommand::PulseA => GamepadState { a: true, ..gp },
        MappingHelperCommand::PulseB => GamepadState { b: true, ..gp },
        MappingHelperCommand::PulseX => GamepadState { x: true, ..gp },
        MappingHelperCommand::PulseY => GamepadState { y: true, ..gp },
        MappingHelperCommand::PulseLB => GamepadState { lb: true, ..gp },
        MappingHelperCommand::PulseRB => GamepadState { rb: true, ..gp },
        MappingHelperCommand::PulseLT => GamepadState { lt: true, ..gp },
        MappingHelperCommand::PulseRT => GamepadState { rt: true, ..gp },
        MappingHelperCommand::PulseBack => GamepadState { back: true, ..gp },
        MappingHelperCommand::PulseStart => GamepadState { start: true, ..gp },
        MappingHelperCommand::PulseLeftStickClick => GamepadState { ls: true, ..gp },
        MappingHelperCommand::PulseRightStickClick => GamepadState { rs: true, ..gp },
        MappingHelperCommand::PulseDpadUp => GamepadState { dpad_up: true, ..gp },
        MappingHelperCommand::PulseDpadDown => GamepadState { dpad_down: true, ..gp },
        MappingHelperCommand::PulseDpadLeft => GamepadState { dpad_left: true, ..gp },
        MappingHelperCommand::PulseDpadRight => GamepadState { dpad_right: true, ..gp },
        MappingHelperCommand::PulseLeftStickUp => GamepadState { ly: -1i32, ..gp },
        MappingHelperCommand::PulseLeftStickDown => GamepadState { ly: 1i32, ..gp },
        MappingHelperCommand::PulseLeftStickLeft => GamepadState { lx: -1i32, ..gp },
        MappingHelperCommand::PulseLeftStickRight => GamepadState { lx: 1i32, ..gp },
        MappingHelperCommand::PulseRightStickUp => GamepadState { ry: -1i32, ..gp },
        MappingHelperCommand::PulseRightStickDown => GamepadState { ry: 1i32, ..gp },
        MappingHelperCommand::PulseRightStickLeft => GamepadState { rx: -1i32, ..gp },
        MappingHelperCommand::PulseRightStickRight => GamepadState { rx: 1i32, ..gp },
        MappingHelperCommand::AutoCycle => gp,
        MappingHelperCommand::Off => gp,
    }
}

/// The gamepad state a mapping-helper pulse drives while it lasts.
pub fn mapping_helper_gamepad(cmd: MappingHelperCommand) -> (gp: GamepadState)
    ensures
        gp == spec_helper_gamepad(cmd),
{
    let gp = GamepadState::default();
    match cmd {
        MappingHelperCommand::PulseA => GamepadState { a: true, ..gp },
        MappingHelperCommand::PulseB => GamepadState { b: true, ..gp },
        MappingHelperCommand::PulseX => GamepadState { x: true, ..gp },
        MappingHelperCommand::PulseY => GamepadState { y: true, ..gp },
        MappingHelperCommand::PulseLB => GamepadState { lb: true, ..gp },
        MappingHelperCommand::PulseRB => GamepadState { rb: true, ..gp },
        MappingHelperCommand::PulseLT => GamepadState { lt: true, ..gp },
        MappingHelperCommand::PulseRT => GamepadState { rt: true, ..gp },
        MappingHelperCommand::PulseBack => GamepadState { back: true, ..gp },
        MappingHelperCommand::PulseStart => GamepadState { start: true, ..gp },
        MappingHelperCommand::PulseLeftStickClick => GamepadState { ls: true, ..gp },
        MappingHelperCommand::PulseRightStickClick => GamepadState { rs: true, ..gp },
        MappingHelperCommand::PulseDpadUp => GamepadState { dpad_up: true, ..gp },
        MappingHelperCommand::PulseDpadDown => GamepadState { dpad_down: true, ..gp },
        MappingHelperCommand::PulseDpadLeft => GamepadState { dpad_left: true, ..gp },
        MappingHelperCommand::PulseDpadRight => GamepadState { dpad_right: true, ..gp },
        MappingHelperCommand::PulseLeftStickUp => GamepadState { ly: -1i32, ..gp },
        MappingHelperCommand::PulseLeftStickDown => GamepadState { ly: 1i32, ..gp },
        MappingHelperCommand::PulseLeftStickLeft => GamepadState { lx: -1i32, ..gp },
        MappingHelperCommand::PulseLeftStickRight => GamepadState { lx: 1i32, ..gp },
        MappingHelperCommand::PulseRightStickUp => GamepadState { ry: -1i32, ..gp },
        MappingHelperCommand::PulseRightStickDown => GamepadState { ry: 1i32, ..gp },
        MappingHelperCommand::PulseRightStickLeft => GamepadState { rx: -1i32, ..gp },
        MappingHelperCommand::PulseRightStickRight => GamepadState { rx: 1i32, ..gp },
        MappingHelperCommand::AutoCycle => gp,
        MappingHelperCommand::Off => gp,
    }
}

/// One step of the automatic mapping cycle, in the typical controller
/// binding order: face buttons, d-pad, left stick with its click, right
/// stick with its click.
pub open spec fn spec_auto_cycle_gamepad(step: int) -> GamepadState {
    let gp = GamepadState::spec_default();
    if step == 0 {
        GamepadState { a: true, ..gp }
    } else if step == 1 {
        GamepadState { b: true, ..gp }
    } else if step == 2 {
        GamepadState { x: true, ..gp }
    } else if step == 3 {
        GamepadState { y: true, ..gp }
    } else if step == 4 {
        GamepadState { dpad_left: true, ..gp }
    } else if step == 5 {
        GamepadState { dpad_right: true, ..gp }
    } else if step == 6 {
        GamepadState { dpad_up: true, ..gp }
    } else if step == 7 {
        GamepadState { dpad_down: true, ..gp }
    } else if step == 8 {
        GamepadState { lx: -1i32, ..gp }
    } else if step == 9 {
        GamepadState { lx: 1i32, ..gp }
    } else if step == 10 {
        GamepadState { ly: -1i32, ..gp }
    } else if step == 11 {
        GamepadState { ly: 1i32, ..gp }
    } else if step == 12 {
        GamepadState { ls: true, ..gp }
    } else if step == 13 {
        GamepadState { rx: -1i32, ..gp }
    } else if step == 14 {
        GamepadState { rx: 1i32, ..gp }
    } else if step == 15 {
        GamepadState { ry: -1i32, ..gp }
    } else if step == 16 {
        GamepadState { ry: 1i32, ..gp }
    } else {
        GamepadState { rs: true, ..gp }
    }
}

/// The gamepad state of one step of the automatic mapping cycle; the
/// caller advances `step` modulo eighteen on its own cadence.
pub fn auto_cycle_gamepad(step: usize) -> (gp: GamepadState)
    ensures
        gp == spec_auto_cycle_gamepad((step % 18) as int),
{
    let gp = GamepadState::default();
    match step % 18 {
        0 => GamepadState { a: true, ..gp },
        1 => GamepadState { b: true, ..gp },
        2 => GamepadState { x: true, ..gp },
        3 => GamepadState { y: true, ..gp },
        4 => GamepadState { dpad_left: true, ..gp },
        5 => GamepadState { dpad_right: true, ..gp },
        6 => GamepadState { dpad_up: true, ..gp },
        7 => GamepadState { dpad_down: true, ..gp },
        8 => GamepadState { lx: -1i32, ..gp },
        9 => GamepadState { lx: 1i32, ..gp },
        10 => GamepadState { ly: -1i32, ..gp },
        11 => GamepadState { ly: 1i32, ..gp },
        12 => GamepadState { ls: true, ..gp },
        13 => GamepadState { rx: -1i32, ..gp },
        14 => GamepadState { rx: 1i32, ..gp },
        15 => GamepadState { ry: -1i32, ..gp },
        16 => GamepadState { ry: 1i32, ..gp },
        _ => GamepadState { rs: true, ..gp },
    }
}

/// One step of the automatic mapping cycle in simulation mode: the cycle
/// walks the eight simulated keys whose channel sets the decoder knows.
pub open spec fn spec_auto_cycle_sim(step: int) -> SimInputIntent {
    let sim = SimInputIntent::spec_default();
    if step == 0 {
        SimInputIntent { space: true, ..sim }
    } else if step == 1 {
        SimInputIntent { key_z: true, ..sim }
    } else if step == 2 {
        SimInputIntent { key_x: true, ..sim }
    } else if step == 3 {
        SimInputIntent { key_c: true, ..sim }
    } else if step == 4 {
        SimInputIntent { w: true, ..sim }
    } else if step == 5 {
        SimInputIntent { s: true, ..sim }
    } else if step == 6 {
        SimInputIntent { a: true, ..sim }
    } else {
        SimInputIntent { d: true, ..sim }
    }
}

/// The simulated key intent of one step of the automatic mapping cycle;
/// the caller advances `step` modulo eight on its own cadence.
pub fn auto_cycle_sim(step: usize) -> (sim: SimInputIntent)
    ensures
        sim == spec_auto_cycle_sim((step % 8) as int),
{
    let sim = SimInputIntent::default();
    match step % 8 {
        0 => SimInputIntent { space: true, ..sim },
        1 => SimInputIntent { key_z: true, ..sim },
        2 => SimInputIntent { key_x: true, ..sim },
        3 => SimInputIntent { key_c: true, ..sim },
        4 => SimInputIntent { w: true, ..sim },
        5 => SimInputIntent { s: true, ..sim },
        6 => SimInputIntent { a: true, ..sim },
        _ => SimInputIntent { d: true, ..sim },
    }
}

/// The simulated key a mapping-helper pulse holds down in simulation
/// mode, for the pulses that have a simulated key at all.
pub open spec fn spec_helper_sim(cmd: MappingHelperCommand) -> SimInputIntent {
    let sim = SimInputIntent::spec_default();
    match cmd {
        MappingHelperCommand::PulseA => SimInputIntent { space: true, ..sim },
        MappingHelperCommand::PulseB => SimInputIntent { key_z: true, ..sim },
        MappingHelperCommand::PulseX => SimInputIntent { key_x: true, ..sim },
        MappingHelperCommand::PulseY => SimInputIntent { key_c: true, ..sim },
        MappingHelperCommand::PulseLeftStickUp => SimInputIntent { w: true, ..sim },
        MappingHelperCommand::PulseLeftStickDown => SimInputIntent { s: true, ..sim },
        MappingHelperCommand::PulseLeftStickLeft => SimInputIntent { a: true, ..sim },
        MappingHelperCommand::PulseLeftStickRight => SimInputIntent { d: true, ..sim },
        _ => sim,
    }
}

/// The simulated key intent a mapping-helper pulse drives while it lasts.
pub fn mapping_helper_sim(cmd: MappingHelperCommand) -> (sim: SimInputIntent)
    ensures
        sim == spec_helper_sim(cmd),
{
    let sim = SimInputIntent::default();
    match cmd {
        MappingHelperCommand::PulseA => SimInputIntent { space: true, ..sim },
        MappingHelperCommand::PulseB => SimInputIntent { key_z: true, ..sim },
        MappingHelperCommand::PulseX => SimInputIntent { key_x: true, ..sim },
        MappingHelperCommand::PulseY => SimInputIntent { key_c: true, ..sim },
        MappingHelperCommand::PulseLeftStickUp => SimInputIntent { w: true, ..sim },
        MappingHelperCommand::PulseLeftStickDown => SimInputIntent { s: true, ..sim },
        MappingHelperCommand::PulseLeftStickLeft => SimInputIntent { a: true, ..sim },
        MappingHelperCommand::PulseLeftStickRight => SimInputIntent { d: true, ..sim },
        _ => sim,
    }
}

/// A fired classifier command overrides the decoded intent's left stick:
/// the three trained classes steer left, right and forward (up being the
/// negative stick direction); any other command leaves the intent as is.
pub open spec fn spec_apply_fire(gp: GamepadState, cmd: MappingHelperCommand) -> GamepadState {
    match cmd {
        MappingHelperCommand::PulseLeftStickLeft => GamepadState { lx: -1i32, ..gp },
        MappingHelperCommand::PulseLeftStickRight => GamepadState { lx: 1i32, ..gp },
        MappingHelperCommand::PulseLeftStickUp => GamepadState { ly: -1i32, ..gp },
        _ => gp,
    }
}

/// Applies a fired classifier command to the current tick's intent.
pub fn apply_fire_to_intent(gp: GamepadState, cmd: MappingHelperCommand) -> (r: GamepadState)
    ensures
        r == spec_apply_fire(gp, cmd),
{
    match cmd {
        MappingHelperCommand::PulseLeftStickLeft => GamepadState { lx: -1i32, ..gp },
        MappingHelperCommand::PulseLeftStickRight => GamepadState { lx: 1i32, ..gp },
        MappingHelperCommand::PulseLeftStickUp => GamepadState { ly: -1i32, ..gp },
        _ => gp,
    }
}

/// Maps an axis value in whole-deflection units onto the virtual
/// gamepad's `0..=32767` axis range, clamping to full deflection first.
pub fn axis_to_vjoy(v: i32) -> (r: i32)
    ensures
        r == (spec_clamp(v as int, -1, 1) + 1) * 32767 / 2,
        0 <= r <= 32767,
{
    let c: i32 = if v < -1 {
        -1
    } else if v > 1 {
        1
    } else {
        v
    };
    (c + 1) * 32767 / 2
}

impl Engine {
    pub open spec fn wf(self) -> bool {
        &&& self.filters.wf()
        &&& self.filters.channel_count() == CHANNEL_COUNT
        &&& self.filters.fs == self.sample_rate_hz
        &&& 101 <= self.sample_rate_hz <= 100000
        &&& 1 <= self.threshold <= AMP_LIMIT
        &&& self.gate.wf()
        &&& (self.calib matches Some(c) ==> c.wf())
        &&& (self.gate_calib matches Some(s) ==> s.wf())
    }

    /// A fresh engine: simulation mode, idle, default threshold and sample
    /// rate, zeroed filter bank, default gate, no calibration running.
    pub fn new() -> (e: Engine)
        ensures
            e.wf(),
            e.mode == ConnectionMode::Simulation,
            !e.is_active,
            !e.is_streaming,
            e.threshold == DEFAULT_THRESHOLD,
            e.sample_rate_hz == DEFAULT_SAMPLE_RATE_HZ,
            e.calib is None,
            e.gate_calib is None,
            e.last_infer_ms is None,
            e.gate == (AdaptiveGate {
                warmup: 30u32,
                cooldown_ms: 400u64,
                min_prob: 550000i64,
                k_sigma: 2500i64,
                ema_alpha: 50i64,
                count: 0u64,
                ema: 0i64,
                var: 0i64,
                last_fire_ms: None::<u64>,
            }),
            e.filters.channel_count() == CHANNEL_COUNT,
            forall|i: int|
                0 <= i < CHANNEL_COUNT ==> (#[trigger] e.filters.hp@[i])
                    == crate::filter::spec_calc_coeffs(
                    DEFAULT_SAMPLE_RATE_HZ as int,
                    crate::filter::HIGHPASS_HZ as int,
                    crate::filter::Q_HIGHPASS_FP as int,
                    true,
                ),
            forall|i: int|
                0 <= i < CHANNEL_COUNT ==> (#[trigger] e.filters.notch@[i])
                    == crate::filter::spec_calc_coeffs(
                    DEFAULT_SAMPLE_RATE_HZ as int,
                    crate::filter::NOTCH_HZ as int,
                    crate::filter::Q_NOTCH_FP as int,
                    false,
                ),
    {
        Engine {
            mode: ConnectionMode::Simulation,
            is_active: false,
            is_streaming: false,
            threshold: DEFAULT_THRESHOLD,
            sample_rate_hz: DEFAULT_SAMPLE_RATE_HZ,
            filters: FilterBank::new(CHANNEL_COUNT, DEFAULT_SAMPLE_RATE_HZ),
            calib: None,
            gate: AdaptiveGate::new(),
            gate_calib: None,
            last_infer_ms: None,
        }
    }

    /// A source connected (or reconnected) and reported its sample rate,
    /// clamped into the supported range. Only a rate change rebuilds the
    /// filter bank; reconnecting at the same rate keeps all filter state.
    pub fn on_connected(&mut self, mode: ConnectionMode, reported_rate_hz: u32)
        requires
            old(self).wf(),
        ensures
            final(self).wf(),
            final(self).mode == mode,
            final(self).is_active,
            final(self).sample_rate_hz == spec_clamp(reported_rate_hz as int, 101, 100000),
            final(self).sample_rate_hz == old(self).sample_rate_hz ==> final(self).filters
                == old(self).filters,
            final(self).sample_rate_hz != old(self).sample_rate_hz ==> {
                &&& final(self).filters.channel_count() == CHANNEL_COUNT
                &&& forall|i: int|
                    0 <= i < CHANNEL_COUNT ==> (#[trigger] final(self).filters.hp@[i])
                        == crate::filter::spec_calc_coeffs(
                        final(self).sample_rate_hz as int,
                        crate::filter::HIGHPASS_HZ as int,
                        crate::filter::Q_HIGHPASS_FP as int,
                        true,
                    )
                &&& forall|i: int|
                    0 <= i < CHANNEL_COUNT ==> (#[trigger] final(self).filters.notch@[i])
                        == crate::filter::spec_calc_coeffs(
                        final(self).sample_rate_hz as int,
                        crate::filter::NOTCH_HZ as int,
                        crate::filter::Q_NOTCH_FP as int,
                        false,
                    )
            },
            final(self).is_streaming == old(self).is_streaming,
            final(self).threshold == old(self).threshold,
            final(self).calib == old(self).calib,
            final(self).gate == old(self).gate,
            final(self).gate_calib == old(self).gate_calib,
            final(self).last_infer_ms == old(self).last_infer_ms,
    {
        let rate: u32 = if reported_rate_hz < 101 {
            101
        } else if reported_rate_hz > 100000 {
            100000
        } else {
            reported_rate_hz
        };
        self.mode = mode;
        self.is_active = true;
        if rate != self.sample_rate_hz {
            self.filters = FilterBank::new(CHANNEL_COUNT, rate);
            self.sample_rate_hz = rate;
        }
    }

    /// Disconnect: stop the pipeline and tear down any calibration in
    /// progress, discarding its partial state; the filter bank keeps its
    /// coefficients for a reconnect at the same rate.
    pub fn disconnect(&mut self)
        requires
            old(self).wf(),
        ensures
            final(self).wf(),
            !final(self).is_active,
            !final(self).is_streaming,
            final(self).calib is None,
            final(self).gate_calib is None,
            final(self).mode == old(self).mode,
            final(self).threshold == old(self).threshold,
            final(self).sample_rate_hz == old(self).sample_rate_hz,
            final(self).filters == old(self).filters,
            final(self).gate == old(self).gate,
            final(self).last_infer_ms == old(self).last_infer_ms,
    {
        self.is_active = false;
        self.is_streaming = false;
        self.calib = None;
        self.gate_calib = None;
    }

    /// Start streaming; ignored while no source is connected.
    pub fn start_stream(&mut self)
        requires
            old(self).wf(),
        ensures
            final(self).wf(),
            final(self).is_streaming == (old(self).is_active || old(self).is_streaming),
            *final(self) == (Engine { is_streaming: final(self).is_streaming, ..*old(self) }),
    {
        if self.is_active {
            self.is_streaming = true;
        }
    }

    /// Stop streaming.
    pub fn stop_stream(&mut self)
        requires
            old(self).wf(),
        ensures
            final(self).wf(),
            *final(self) == (Engine { is_streaming: false, ..*old(self) }),
    {
        self.is_streaming = false;
    }

    /// Update the decoder's activation threshold, clamped into the
    /// positive amplitude range.
    pub fn set_threshold(&mut self, threshold: i64)
        requires
            old(self).wf(),
        ensures
            final(self).wf(),
            *final(self) == (Engine {
                threshold: spec_clamp(threshold as int, 1, AMP_LIMIT as int) as i64,
                ..*old(self)
            }),
    {
        self.threshold = clamp_i64(threshold, 1, AMP_LIMIT);
    }

    /// Open an amplitude-calibration window for `target` at `now_ms`.
    pub fn start_calibration(&mut self, target: CalibrationTarget, now_ms: u64)
        requires
            old(self).wf(),
        ensures
            final(self).wf(),
            *final(self) == (Engine {
                calib: Some(
                    CalibrationController { target, start_ms: now_ms, max_abs: 0, finished: false },
                ),
                ..*old(self)
            }),
    {
        self.calib = Some(CalibrationController::start(target, now_ms));
    }

    /// Overwrite the adaptive gate's tunables (clamped into their valid ranges)
    /// without resetting its counter or baseline.
    pub fn set_gate_params(&mut self, p: NeuroGptGateParams)
        requires
            old(self).wf(),
        ensures
            final(self).wf(),
            *final(self) == (Engine {
                gate: AdaptiveGate {
                    warmup: p.warmup,
                    cooldown_ms: p.cooldown_ms,
                    min_prob: spec_clamp(p.min_prob as int, 0, PROB_ONE as int) as i64,
                    k_sigma: spec_clamp(p.k_sigma as int, 0, K_SIGMA_LIMIT as int) as i64,
                    ..old(self).gate
                },
                ..*old(self)
            }),
    {
        let clamped = NeuroGptGateParams {
            warmup: p.warmup,
            cooldown_ms: p.cooldown_ms,
            min_prob: clamp_i64(p.min_prob, 0, PROB_ONE),
            k_sigma: clamp_i64(p.k_sigma, 0, K_SIGMA_LIMIT),
        };
        self.gate.set_params(clamped);
    }

    /// Open a gate-calibration collection window at `now_ms`.
    pub fn begin_gate_calibration(&mut self, seconds: u32, target_per_min_milli: i64, now_ms: u64)
        requires
            old(self).wf(),
            now_ms <= 0x4000000000000000,
        ensures
            final(self).wf(),
            final(self).gate_calib matches Some(s) && s.start_ms == now_ms && s.end_ms == now_ms
                + 1000 * spec_clamp(seconds as int, 3, 60) && s.target_per_min_milli == spec_clamp(
                target_per_min_milli as int,
                0,
                60000000,
            ) && s.margins@.len() == 0 && s.top1s@.len() == 0,
            *final(self) == (Engine { gate_calib: final(self).gate_calib, ..*old(self) }),
    {
        self.gate_calib = Some(GateCalibrationSession::begin(now_ms, seconds, target_per_min_milli));
    }

    /// One acquisition tick: runs the raw sample vector through the filter
    /// bank, decodes the cleaned vector into a control intent, and feeds
    /// any running amplitude calibration. A tick that arrives while not
    /// streaming, or with the wrong channel count, changes nothing and
    /// yields a neutral intent.
    pub fn process_tick(&mut self, raw: &Vec<i64>, now_ms: u64) -> (out: TickOutcome)
        requires
            old(self).wf(),
            forall|i: int| 0 <= i < raw@.len() ==> -AMP_LIMIT <= #[trigger] raw@[i] <= AMP_LIMIT,
        ensures
            final(self).wf(),
            final(self).mode == old(self).mode,
            final(self).is_active == old(self).is_active,
            final(self).is_streaming == old(self).is_streaming,
            final(self).threshold == old(self).threshold,
            final(self).sample_rate_hz == old(self).sample_rate_hz,
            final(self).gate == old(self).gate,
            final(self).gate_calib == old(self).gate_calib,
            final(self).last_infer_ms == old(self).last_infer_ms,
            !(old(self).is_streaming && raw@.len() == CHANNEL_COUNT) ==> {
                &&& *final(self) == *old(self)
                &&& out.intent == GamepadState::spec_default()
                &&& out.calibration_result is None
            },
            old(self).is_streaming && raw@.len() == CHANNEL_COUNT ==> {
                &&& final(self).filters.fs == old(self).filters.fs
                &&& final(self).filters.hp@ == spec_hp_stepped(old(self).filters, raw@)
                &&& final(self).filters.notch@ == spec_notch_stepped(old(self).filters, raw@)
                &&& out.intent == spec_intent(
                    spec_clean(old(self).filters, raw@),
                    old(self).threshold as int,
                )
                &&& match old(self).calib {
                    Option::None => final(self).calib is None && out.calibration_result is None,
                    Option::Some(c) => {
                        &&& final(self).calib == Some(
                            c.spec_after_observe(spec_clean(old(self).filters, raw@), now_ms),
                        )
                        &&& out.calibration_result == c.spec_observe_result(
                            spec_clean(old(self).filters, raw@),
                            now_ms,
                        )
                    },
                }
            },
    {
        if !self.is_streaming || raw.len() != CHANNEL_COUNT {
            return TickOutcome { intent: GamepadState::default(), calibration_result: None };
        }
        let ghost bank0 = self.filters;
        let mut clean: Vec<i64> = Vec::new();
        let mut i: usize = 0;
        while i < CHANNEL_COUNT
            invariant
                i <= CHANNEL_COUNT,
                raw@.len() == CHANNEL_COUNT,
                forall|k: int| 0 <= k < raw@.len() ==> -AMP_LIMIT <= #[trigger] raw@[k] <= AMP_LIMIT,
                bank0.wf(),
                bank0.channel_count() == CHANNEL_COUNT,
                bank0 == old(self).filters,
                self.mode == old(self).mode,
                self.is_active == old(self).is_active,
                self.is_streaming == old(self).is_streaming,
                self.threshold == old(self).threshold,
                self.sample_rate_hz == old(self).sample_rate_hz,
                self.calib == old(self).calib,
                self.gate == old(self).gate,
                self.gate_calib == old(self).gate_calib,
                self.last_infer_ms == old(self).last_infer_ms,
                old(self).wf(),
                self.filters.wf(),
                self.filters.fs == bank0.fs,
                self.filters.hp@.len() == bank0.hp@.len(),
                self.filters.notch@.len() == bank0.notch@.len(),
                forall|j: int|
                    0 <= j < i ==> (#[trigger] self.filters.hp@[j]) == bank0.hp@[j].spec_step(
                        raw@[j],
                    ),
                forall|j: int|
                    i <= j < CHANNEL_COUNT ==> (#[trigger] self.filters.hp@[j]) == bank0.hp@[j],
                forall|j: int|
                    0 <= j < i ==> (#[trigger] self.filters.notch@[j]) == bank0.notch@[j].spec_step(
                        bank0.hp@[j].spec_out(raw@[j] as int) as i64,
                    ),
                forall|j: int|
                    i <= j < CHANNEL_COUNT ==> (#[trigger] self.filters.notch@[j])
                        == bank0.notch@[j],
                clean@.len() == i,
                forall|j: int|
                    0 <= j < i ==> (#[trigger] clean@[j]) == bank0.spec_out(j, raw@[j]) as i64,
                forall|j: int| 0 <= j < i ==> -AMP_LIMIT <= #[trigger] clean@[j] <= AMP_LIMIT,
            decreases CHANNEL_COUNT - i,
        {
            let y = self.filters.process_sample(i, raw[i]);
            clean.push(y);
            i = i + 1;
        }
        proof {
            assert(self.filters.hp@ =~= spec_hp_stepped(bank0, raw@));
            assert(self.filters.notch@ =~= spec_notch_stepped(bank0, raw@));
            assert(clean@ =~= spec_clean(bank0, raw@));
        }
        let intent = process_neural_intent(&clean, self.threshold);
        let calibration_result: Option<(CalibrationTarget, i64)> = match &mut self.calib {
            None => None,
            Some(c) => c.observe(&clean, now_ms),
        };
        TickOutcome { intent, calibration_result }
    }

    /// One classifier tick: `class_idx` is the winning class and `top1`,
    /// `top2` the two largest probabilities of the classifier's output
    /// (from `top_class` and `top2_probs`). While a gate-calibration
    /// window is open, the tick's margin and top probability are
    /// collected and the window's progress is reported; the adaptive gate then
    /// updates its baseline and decides whether to fire the class's
    /// command; and a window whose time has elapsed is finalized into
    /// fresh gate tunables. An index outside the class table is a
    /// configuration error: nothing changes and nothing fires.
    pub fn on_classifier_result(
        &mut self,
        class_idx: usize,
        top1: i64,
        top2: i64,
        now_ms: u64,
    ) -> (out: ClassifierOutcome)
        requires
            old(self).wf(),
            0 <= top2 <= top1 <= PROB_ONE,
        ensures
            final(self).wf(),
            final(self).mode == old(self).mode,
            final(self).is_active == old(self).is_active,
            final(self).is_streaming == old(self).is_streaming,
            final(self).threshold == old(self).threshold,
            final(self).sample_rate_hz == old(self).sample_rate_hz,
            final(self).filters == old(self).filters,
            final(self).calib == old(self).calib,
            final(self).last_infer_ms == old(self).last_infer_ms,
            spec_class_command(class_idx as int) is None ==> {
                &&& *final(self) == *old(self)
                &&& out.fired is None
                &&& out.progress_ppm is None
                &&& out.calibration is None
            },
            spec_class_command(class_idx as int) matches Some(cmd) ==> {
                &&& out.fired == (if old(self).gate.spec_fires(top1, top2, now_ms) {
                    Some(cmd)
                } else {
                    None::<MappingHelperCommand>
                })
                &&& match old(self).gate_calib {
                    Option::None => {
                        &&& out.progress_ppm is None
                        &&& out.calibration is None
                        &&& final(self).gate_calib is None
                        &&& final(self).gate == old(self).gate.spec_step(top1, top2, now_ms)
                    },
                    Option::Some(s) => {
                        &&& out.progress_ppm == Some(s.spec_progress_ppm(now_ms) as i64)
                        &&& if now_ms >= s.end_ms {
                            let derived = spec_derive(
                                s.target_per_min_milli as int,
                                s.spec_window_s(),
                                s.spec_margins_after(top1, top2).sort_by(i64_leq()),
                                s.spec_top1s_after(top1, top2).sort_by(i64_leq()),
                            );
                            &&& out.calibration == Some(derived)
                            &&& final(self).gate_calib is None
                            &&& final(self).gate
                                == crate::gatecal::spec_gate_after_calibration(
                                old(self).gate.spec_step(top1, top2, now_ms),
                                derived,
                            )
                        } else {
                            &&& out.calibration is None
                            &&& final(self).gate == old(self).gate.spec_step(top1, top2, now_ms)
                            &&& final(self).gate_calib matches Some(s1) && s1.start_ms == s.start_ms
                                && s1.end_ms == s.end_ms && s1.target_per_min_milli
                                == s.target_per_min_milli && s1.margins@ == s.spec_margins_after(
                                top1,
                                top2,
                            ) && s1.top1s@ == s.spec_top1s_after(top1, top2)
                        }
                    },
                }
            },
    {
        let cmd: MappingHelperCommand = match map_class_to_mapping_helper(class_idx) {
            None => {
                return ClassifierOutcome { fired: None, progress_ppm: None, calibration: None };
            },
            Some(c) => c,
        };
        let progress_ppm: Option<i64> = match &mut self.gate_calib {
            None => None,
            Some(s) => {
                let p = s.progress_ppm(now_ms);
                s.observe(top1, top2);
                Some(p)
            },
        };
        let fired_now = self.gate.update_and_decide(top1, top2, now_ms);
        let fired: Option<MappingHelperCommand> = if fired_now {
            Some(cmd)
        } else {
            None
        };
        let elapsed: bool = match &self.gate_calib {
            None => false,
            Some(s) => s.is_elapsed(now_ms),
        };
        let mut calibration: Option<GateCalibrationOutcome> = None;
        if elapsed {
            let sess = self.gate_calib.take();
            if let Some(s) = sess {
                let sm = sort_i64(&s.margins);
                let st = sort_i64(&s.top1s);
                let derived = s.derive(&sm, &st);
                let mut p = self.gate.params();
                p.k_sigma = derived.k_sigma;
                if let Some(mp) = derived.min_prob {
                    p.min_prob = mp;
                }
                self.gate.set_params(p);
                self.gate.reset_baseline(derived.mean, derived.var);
                calibration = Some(derived);
            }
        }
        ClassifierOutcome { fired, progress_ppm, calibration }
    }

    /// Whether a classifier invocation is due at `now_ms`; when it is, the
    /// rate limiter restarts from `now_ms`.
    pub fn classifier_due(&mut self, now_ms: u64) -> (due: bool)
        requires
            old(self).wf(),
        ensures
            final(self).wf(),
            due == match old(self).last_infer_ms {
                Option::None => true,
                Option::Some(t) => crate::calib::spec_elapsed(t, now_ms) >= INFER_INTERVAL_MS,
            },
            due ==> *final(self) == (Engine { last_infer_ms: Some(now_ms), ..*old(self) }),
            !due ==> *final(self) == *old(self),
    {
        let due: bool = match self.last_infer_ms {
            None => true,
            Some(t) => {
                let e: u64 = if now_ms >= t {
                    now_ms - t
                } else {
                    0
                };
                e >= INFER_INTERVAL_MS
            },
        };
        if due {
            self.last_infer_ms = Some(now_ms);
        }
        due
    }
}

} // verus!
