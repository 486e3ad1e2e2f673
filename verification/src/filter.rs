//! Per-channel cascaded IIR filter bank: a 3 Hz highpass (drift removal)
//! followed by a 50 Hz notch (mains-interference removal) on every channel.
//!
//! Coefficients follow the resonant-filter cookbook derivation from the
//! center frequency, the sample rate and Q, carried out in `FP` fixed point;
//! the highpass numerator is tied together so that its coefficients sum to
//! exactly zero, making the response at DC exactly zero. All channels share
//! one coefficient set but hold independent delay registers, so crosstalk
//! between channels is impossible by construction. Every output is clamped
//! into `[-AMP_LIMIT, AMP_LIMIT]`, which keeps the bank's state bounded for
//! any input sequence.

use vstd::prelude::*;
use crate::fixed::clamp_i64;
use crate::fixed::div_trunc;
use crate::fixed::lemma_abs_mul_le;
use crate::fixed::lemma_div_bound;
use crate::fixed::spec_clamp;
use crate::fixed::spec_div_trunc;
use crate::trig::cos_fp;
use crate::trig::sin_fp;
use crate::trig::spec_cos_pi;
use crate::trig::spec_sin_pi;
use crate::trig::FP;
use crate::trig::PI_FP;

verus! {

/// Largest amplitude the bank accepts or emits, in thousandths of a
/// microvolt: 2^30, about a million microvolts.
pub const AMP_LIMIT: i64 = 1073741824;

/// Highpass center frequency in Hz.
pub const HIGHPASS_HZ: u32 = 3;

/// Notch center frequency in Hz.
pub const NOTCH_HZ: u32 = 50;

/// Q of the highpass section, 0.707 at `FP` scaling.
pub const Q_HIGHPASS_FP: i64 = 741343;

/// Q of the notch section, 10.0 at `FP` scaling.
pub const Q_NOTCH_FP: i64 = 10485760;

/// One second-order section: cookbook coefficients at `FP` scaling plus the
/// two input and two output delay registers, in amplitude units.
#[derive(Clone, Copy, Debug)]
pub struct BiquadState {
    pub b0: i64,
    pub b1: i64,
    pub b2: i64,
    pub a0: i64,
    pub a1: i64,
    pub a2: i64,
    pub x1: i64,
    pub x2: i64,
    pub y1: i64,
    pub y2: i64,
}

impl BiquadState {
    /// Coefficient ranges every cookbook-derived section satisfies, and
    /// register bounds every processed sample maintains.
    pub open spec fn wf(self) -> bool {
        &&& FP <= self.a0 <= 6 * FP
        &&& -2 * FP <= self.a1 <= 2 * FP
        &&& -4 * FP <= self.a2 <= FP
        &&& 0 <= self.b0 <= FP
        &&& -2 * FP <= self.b1 <= 2 * FP
        &&& 0 <= self.b2 <= FP
        &&& -AMP_LIMIT <= self.x1 <= AMP_LIMIT
        &&& -AMP_LIMIT <= self.x2 <= AMP_LIMIT
        &&& -AMP_LIMIT <= self.y1 <= AMP_LIMIT
        &&& -AMP_LIMIT <= self.y2 <= AMP_LIMIT
    }

    /// The direct-form-I numerator of the difference equation.
    pub open spec fn spec_num(self, x: int) -> int {
        self.b0 * x + self.b1 * self.x1 + self.b2 * self.x2 - self.a1 * self.y1 - self.a2
            * self.y2
    }

    /// The sample this section emits for input `x`.
    pub open spec fn spec_out(self, x: int) -> int {
        spec_clamp(
            spec_div_trunc(self.spec_num(x), self.a0 as int),
            -(AMP_LIMIT as int),
            AMP_LIMIT as int,
        )
    }

    /// The section after processing input `x`: registers shift, coefficients
    /// stay.
    pub open spec fn spec_step(self, x: i64) -> BiquadState {
        BiquadState {
            x1: x,
            x2: self.x1,
            y1: self.spec_out(x as int) as i64,
            y2: self.y1,
            ..self
        }
    }

    /// Runs one sample through the section, shifting the delay registers.
    pub fn process(&mut self, x: i64) -> (y: i64)
        requires
            old(self).wf(),
            -AMP_LIMIT <= x <= AMP_LIMIT,
        ensures
            *final(self) == old(self).spec_step(x),
            y == old(self).spec_out(x as int),
            final(self).wf(),
            -AMP_LIMIT <= y <= AMP_LIMIT,
    {
        proof {
            lemma_abs_mul_le(self.b0 as int, x as int, FP as int, AMP_LIMIT as int);
            lemma_abs_mul_le(self.b1 as int, self.x1 as int, 2 * FP, AMP_LIMIT as int);
            lemma_abs_mul_le(self.b2 as int, self.x2 as int, FP as int, AMP_LIMIT as int);
            lemma_abs_mul_le(self.a1 as int, self.y1 as int, 2 * FP, AMP_LIMIT as int);
            lemma_abs_mul_le(self.a2 as int, self.y2 as int, 4 * FP, AMP_LIMIT as int);
        }
        let num: i64 = self.b0 * x + self.b1 * self.x1 + self.b2 * self.x2 - self.a1 * self.y1
            - self.a2 * self.y2;
        let y: i64 = clamp_i64(div_trunc(num, self.a0), -AMP_LIMIT, AMP_LIMIT);
        self.x2 = self.x1;
        self.x1 = x;
        self.y2 = self.y1;
        self.y1 = y;
        y
    }
}

/// The cookbook coefficient derivation, mirrored by `calc_coeffs`.
pub open spec fn spec_calc_coeffs(fs: int, freq: int, q: int, highpass: bool) -> BiquadState {
    let w0 = spec_clamp(2 * PI_FP * freq / fs, 0, PI_FP as int);
    let sin_w0 = spec_sin_pi(w0);
    let cos_w0 = spec_cos_pi(w0);
    let alpha = sin_w0 * FP / (2 * q);
    let a0 = (FP + alpha) as i64;
    let a1 = (-2 * cos_w0) as i64;
    let a2 = (FP - alpha) as i64;
    if highpass {
        let h = ((FP + cos_w0) / 2) as i64;
        BiquadState { b0: h, b1: (-2 * h) as i64, b2: h, a0, a1, a2, x1: 0, x2: 0, y1: 0, y2: 0 }
    } else {
        BiquadState {
            b0: FP,
            b1: a1,
            b2: FP,
            a0,
            a1,
            a2,
            x1: 0,
            x2: 0,
            y1: 0,
            y2: 0,
        }
    }
}

/// Derives one section's coefficients from the sample rate, the center
/// frequency and Q, with zeroed delay registers.
#[verifier::rlimit(50)]
pub fn calc_coeffs(fs: u32, freq: u32, q: i64, highpass: bool) -> (s: BiquadState)
    requires
        1 <= freq,
        2 * freq < fs,
        fs <= 100000,
        104858 <= q <= 104857600,
    ensures
        s == spec_calc_coeffs(fs as int, freq as int, q as int, highpass),
        s.wf(),
        s.x1 == 0 && s.x2 == 0 && s.y1 == 0 && s.y2 == 0,
{
    proof {
        assert(2 * PI_FP * (freq as int) <= 2 * 3294199 * 49999) by (nonlinear_arith)
            requires
                PI_FP == 3294199,
                1 <= freq <= 49999,
        ;
        lemma_div_bound(2 * PI_FP * (freq as int), fs as int, (2 * 3294199 * 49999) as int, 1);
    }
    let raw_w0: i64 = 2 * PI_FP * (freq as i64) / (fs as i64);
    let w0: i64 = clamp_i64(raw_w0, 0, PI_FP);
    let sin_w0: i64 = sin_fp(w0);
    let cos_w0: i64 = cos_fp(w0);
    proof {
        lemma_div_bound((sin_w0 * FP) as int, (2 * q) as int, (FP * FP) as int, 209716);
    }
    let alpha: i64 = sin_w0 * FP / (2 * q);
    let a0: i64 = FP + alpha;
    proof {
        assert(-2097152 <= -2 * (cos_w0 as int) <= 2097152) by (nonlinear_arith)
            requires
                -1048576 <= cos_w0 <= 1048576,
        ;
    }
    let a1: i64 = -2 * cos_w0;
    let a2: i64 = FP - alpha;
    if highpass {
        proof {
            lemma_div_bound((FP + cos_w0) as int, 2, (2 * FP) as int, 2);
        }
        let h: i64 = (FP + cos_w0) / 2;
        let hb1: i64 = -2 * h;
        BiquadState { b0: h, b1: hb1, b2: h, a0, a1, a2, x1: 0, x2: 0, y1: 0, y2: 0 }
    } else {
        BiquadState { b0: FP, b1: a1, b2: FP, a0, a1, a2, x1: 0, x2: 0, y1: 0, y2: 0 }
    }
}

/// The highpass numerator sums to exactly zero for every sample rate,
/// frequency and Q: a constant input therefore has zero steady-state
/// contribution through the numerator, which is what removes DC offset.
pub proof fn lemma_highpass_zero_dc_numerator(fs: int, freq: int, q: int)
    ensures
        ({
            let s = spec_calc_coeffs(fs, freq, q, true);
            s.b0 + s.b1 + s.b2 == 0
        }),
{
    reveal(crate::trig::spec_cos_quarter);
    let w0 = spec_clamp(2 * PI_FP * freq / fs, 0, PI_FP as int);
    let c = spec_cos_pi(w0);
    assert(-FP <= c <= FP);
    let h = (FP + c) / 2;
    assert(0 <= h <= FP);
    assert((-2 * h) as i64 == -2 * (h as i64));
}

/// A bank exactly as `FilterBank::new(channels, fs)` builds it: the shared
/// derived coefficient set on every channel, with zeroed delay registers.
pub open spec fn spec_fresh_bank(bank: FilterBank, channels: int, fs: int) -> bool {
    &&& bank.hp@.len() == channels
    &&& bank.notch@.len() == channels
    &&& forall|i: int|
        0 <= i < channels ==> (#[trigger] bank.hp@[i]) == spec_calc_coeffs(
            fs,
            HIGHPASS_HZ as int,
            Q_HIGHPASS_FP as int,
            true,
        )
    &&& forall|i: int|
        0 <= i < channels ==> (#[trigger] bank.notch@[i]) == spec_calc_coeffs(
            fs,
            NOTCH_HZ as int,
            Q_NOTCH_FP as int,
            false,
        )
}

/// The per-channel cascade: one highpass and one notch section per channel,
/// all sharing one derived coefficient set, each holding its own registers.
pub struct FilterBank {
    pub hp: Vec<BiquadState>,
    pub notch: Vec<BiquadState>,
    pub fs: u32,
}

impl FilterBank {
    pub open spec fn wf(self) -> bool {
        &&& self.hp@.len() == self.notch@.len()
        &&& forall|i: int| 0 <= i < self.hp@.len() ==> (#[trigger] self.hp@[i]).wf()
        &&& forall|i: int| 0 <= i < self.notch@.len() ==> (#[trigger] self.notch@[i]).wf()
    }

    pub open spec fn channel_count(self) -> int {
        self.hp@.len() as int
    }

    /// What one sample on one channel returns: the highpass output fed to
    /// the notch section of the same channel.
    pub open spec fn spec_out(self, channel: int, x: i64) -> int {
        self.notch@[channel].spec_out(self.hp@[channel].spec_out(x as int) as i64 as int)
    }

    /// Builds a fresh bank: every channel gets the same highpass and notch
    /// coefficients for sample rate `fs`, with all delay registers zero.
    pub fn new(channels: usize, fs: u32) -> (bank: FilterBank)
        requires
            channels <= 64,
            101 <= fs <= 100000,
        ensures
            bank.wf(),
            bank.channel_count() == channels,
            bank.fs == fs,
            spec_fresh_bank(bank, channels as int, fs as int),
            forall|i: int|
                0 <= i < channels ==> (#[trigger] bank.hp@[i]) == spec_calc_coeffs(
                    fs as int,
                    HIGHPASS_HZ as int,
                    Q_HIGHPASS_FP as int,
                    true,
                ),
            forall|i: int|
                0 <= i < channels ==> (#[trigger] bank.notch@[i]) == spec_calc_coeffs(
                    fs as int,
                    NOTCH_HZ as int,
                    Q_NOTCH_FP as int,
                    false,
                ),
    {
        let hp_proto = calc_coeffs(fs, HIGHPASS_HZ, Q_HIGHPASS_FP, true);
        let notch_proto = calc_coeffs(fs, NOTCH_HZ, Q_NOTCH_FP, false);
        let mut hp: Vec<BiquadState> = Vec::new();
        let mut notch: Vec<BiquadState> = Vec::new();
        let mut i: usize = 0;
        while i < channels
            invariant
                i <= channels,
                hp@.len() == i,
                notch@.len() == i,
                hp_proto == spec_calc_coeffs(
                    fs as int,
                    HIGHPASS_HZ as int,
                    Q_HIGHPASS_FP as int,
                    true,
                ),
                notch_proto == spec_calc_coeffs(
                    fs as int,
                    NOTCH_HZ as int,
                    Q_NOTCH_FP as int,
                    false,
                ),
                hp_proto.wf(),
                notch_proto.wf(),
                forall|j: int| 0 <= j < i ==> (#[trigger] hp@[j]) == hp_proto,
                forall|j: int| 0 <= j < i ==> (#[trigger] notch@[j]) == notch_proto,
            decreases channels - i,
        {
            hp.push(hp_proto);
            notch.push(notch_proto);
            i = i + 1;
        }
        FilterBank { hp, notch, fs }
    }

    /// Runs one raw sample of one channel through that channel's cascade.
    /// A channel index outside the bank returns the input unchanged and
    /// leaves the bank as it was; no other channel's registers ever move.
    pub fn process_sample(&mut self, channel: usize, x: i64) -> (y: i64)
        requires
            old(self).wf(),
            -AMP_LIMIT <= x <= AMP_LIMIT,
        ensures
            final(self).wf(),
            final(self).fs == old(self).fs,
            final(self).channel_count() == old(self).channel_count(),
            -AMP_LIMIT <= y <= AMP_LIMIT,
            channel >= old(self).channel_count() ==> y == x && *final(self) == *old(self),
            channel < old(self).channel_count() ==> {
                &&& y == old(self).spec_out(channel as int, x)
                &&& final(self).hp@ == old(self).hp@.update(
                    channel as int,
                    old(self).hp@[channel as int].spec_step(x),
                )
                &&& final(self).notch@ == old(self).notch@.update(
                    channel as int,
                    old(self).notch@[channel as int].spec_step(
                        old(self).hp@[channel as int].spec_out(x as int) as i64,
                    ),
                )
            },
    {
        if channel >= self.hp.len() {
            return x;
        }
        let mut hp_sec: BiquadState = self.hp[channel];
        let s1: i64 = hp_sec.process(x);
        self.hp.set(channel, hp_sec);
        let mut notch_sec: BiquadState = self.notch[channel];
        let y: i64 = notch_sec.process(s1);
        self.notch.set(channel, notch_sec);
        y
    }
}

} // verus!
