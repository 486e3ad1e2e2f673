//! The adaptive trigger gate: tracks an exponential moving mean and moving
//! variance of the classifier's margin statistic and fires only when a
//! margin stands out from that baseline.
//!
//! `update_and_decide` folds one margin into the baseline, then refuses to
//! fire during warmup and during the cooldown window after a fire;
//! otherwise it fires iff the top probability reaches `min_prob` and the
//! margin reaches `mean + k_sigma * sqrt(variance)`. Probabilities are in
//! parts per million; `k_sigma` and the smoothing factor are in
//! thousandths. The whole step is mirrored by a spec model, so warmup and
//! cooldown behavior are proved for arbitrary input sequences.

use vstd::prelude::*;
use crate::calib::spec_elapsed;
use crate::classifier::spec_probs_wf;
use crate::classifier::spec_top2;
use crate::classifier::top2_probs;
use crate::classifier::PROB_ONE;
use crate::fixed::clamp_i64;
use crate::fixed::isqrt_i64;
use crate::fixed::lemma_div_bound;
use crate::fixed::lemma_mul_le;
use crate::fixed::lemma_abs_mul_le;
use crate::fixed::spec_clamp;
use crate::fixed::spec_isqrt;
use crate::types::MappingHelperCommand;
use crate::types::NeuroGptGateParams;

verus! {

/// Upper bound the moving variance never exceeds: one squared probability
/// unit, in squared parts per million.
pub const VAR_LIMIT: i64 = 1000000000000;

/// Upper bound accepted for the `k_sigma` tunable, in thousandths (100.0).
pub const K_SIGMA_LIMIT: i64 = 100000;

/// The adaptive trigger gate's state.
pub struct AdaptiveGate {
    pub warmup: u32,
    pub cooldown_ms: u64,
    pub min_prob: i64,
    pub k_sigma: i64,
    pub ema_alpha: i64,
    pub count: u64,
    pub ema: i64,
    pub var: i64,
    pub last_fire_ms: Option<u64>,
}

/// The margin statistic: the separation of the top two probabilities,
/// floored at zero.
pub open spec fn spec_margin(t1: int, t2: int) -> int {
    if t1 - t2 > 0 {
        t1 - t2
    } else {
        0
    }
}

/// A counter increment that stays put at the top of its range instead of
/// wrapping.
pub open spec fn spec_inc(c: u64) -> u64 {
    if c < u64::MAX {
        (c + 1) as u64
    } else {
        c
    }
}

impl AdaptiveGate {
    pub open spec fn wf(self) -> bool {
        &&& 0 <= self.ema <= PROB_ONE
        &&& 0 <= self.var <= VAR_LIMIT
        &&& 0 <= self.min_prob <= PROB_ONE
        &&& 0 <= self.k_sigma <= K_SIGMA_LIMIT
    }

    /// The adaptive gate after folding margin `x` into the moving statistics: the
    /// first observation seeds the mean, later ones smooth exponentially
    /// with the clamped factor and keep the moving variance non-negative.
    pub open spec fn spec_stats_after(self, x: int) -> AdaptiveGate {
        let c = spec_inc(self.count);
        if c == 1 {
            AdaptiveGate { count: c, ema: x as i64, var: 0, ..self }
        } else {
            let a = spec_clamp(self.ema_alpha as int, 1, 500);
            let ema2 = ((1000 - a) * self.ema + a * x) / 1000;
            let diff = x - self.ema;
            let var2 = ((1000 - a) * (self.var + a * (diff * diff) / 1000)) / 1000;
            AdaptiveGate { count: c, ema: ema2 as i64, var: var2 as i64, ..self }
        }
    }

    /// Whether the cooldown window since the last fire has passed at `now`.
    pub open spec fn spec_cooldown_ok(self, now: u64) -> bool {
        match self.last_fire_ms {
            Option::None => true,
            Option::Some(lf) => spec_elapsed(lf, now) >= self.cooldown_ms,
        }
    }

    /// Whether a step with top probabilities `t1`, `t2` at time `now`
    /// fires: the counter (after this update) has reached warmup, cooldown
    /// has passed, `t1` reaches the probability floor, and the margin
    /// reaches the adaptive threshold over the updated baseline.
    pub open spec fn spec_fires(self, t1: i64, t2: i64, now: u64) -> bool {
        let m = spec_margin(t1 as int, t2 as int);
        let g1 = self.spec_stats_after(m);
        &&& g1.count >= self.warmup
        &&& self.spec_cooldown_ok(now)
        &&& t1 >= self.min_prob
        &&& m >= g1.ema + g1.k_sigma * spec_isqrt(g1.var as int) / 1000
    }

    /// The adaptive gate after one full `update_and_decide` step.
    pub open spec fn spec_step(self, t1: i64, t2: i64, now: u64) -> AdaptiveGate {
        let g1 = self.spec_stats_after(spec_margin(t1 as int, t2 as int));
        if self.spec_fires(t1, t2, now) {
            AdaptiveGate { last_fire_ms: Some(now), ..g1 }
        } else {
            g1
        }
    }

    /// A fresh gate with the default tunables and an empty baseline.
    pub fn new() -> (g: AdaptiveGate)
        ensures
            g.wf(),
            g == (AdaptiveGate {
                warmup: 30u32,
                cooldown_ms: 400u64,
                min_prob: 550000i64,
                k_sigma: 2500i64,
                ema_alpha: 50i64,
                count: 0u64,
                ema: 0i64,
                var: 0i64,
                last_fire_ms: None::<u64>,
            }),
    {
        AdaptiveGate {
            warmup: 30,
            cooldown_ms: 400,
            min_prob: 550000,
            k_sigma: 2500,
            ema_alpha: 50,
            count: 0,
            ema: 0,
            var: 0,
            last_fire_ms: None,
        }
    }

    /// The current tunables.
    pub fn params(&self) -> (p: NeuroGptGateParams)
        ensures
            p.warmup == self.warmup,
            p.cooldown_ms == self.cooldown_ms,
            p.min_prob == self.min_prob,
            p.k_sigma == self.k_sigma,
    {
        NeuroGptGateParams {
            warmup: self.warmup,
            cooldown_ms: self.cooldown_ms,
            min_prob: self.min_prob,
            k_sigma: self.k_sigma,
        }
    }

    /// Overwrites the tunables; the baseline and the update counter keep
    /// running so the adaptive gate stays adaptive.
    pub fn set_params(&mut self, p: NeuroGptGateParams)
        requires
            old(self).wf(),
            0 <= p.min_prob <= PROB_ONE,
            0 <= p.k_sigma <= K_SIGMA_LIMIT,
        ensures
            final(self).wf(),
            *final(self) == (AdaptiveGate {
                warmup: p.warmup,
                cooldown_ms: p.cooldown_ms,
                min_prob: p.min_prob,
                k_sigma: p.k_sigma,
                ..*old(self)
            }),
    {
        self.warmup = p.warmup;
        self.cooldown_ms = p.cooldown_ms;
        self.min_prob = p.min_prob;
        self.k_sigma = p.k_sigma;
    }

    /// Replaces the moving baseline with a freshly measured mean and
    /// variance and marks warmup as already served, so the adaptive gate is
    /// immediately eligible to fire again.
    pub fn reset_baseline(&mut self, mean: i64, var: i64)
        requires
            old(self).wf(),
            0 <= mean <= PROB_ONE,
            var <= VAR_LIMIT,
        ensures
            final(self).wf(),
            *final(self) == (AdaptiveGate {
                ema: mean,
                var: (if var >= 0 {
                    var
                } else {
                    0
                }),
                count: (if old(self).warmup >= 1 {
                    old(self).warmup as u64
                } else {
                    1
                }),
                last_fire_ms: None::<u64>,
                ..*old(self)
            }),
    {
        self.ema = mean;
        self.var = if var >= 0 {
            var
        } else {
            0
        };
        self.count = if self.warmup >= 1 {
            self.warmup as u64
        } else {
            1
        };
        self.last_fire_ms = None;
    }

    fn update_stats(&mut self, x: i64)
        requires
            old(self).wf(),
            0 <= x <= PROB_ONE,
        ensures
            final(self).wf(),
            *final(self) == old(self).spec_stats_after(x as int),
    {
        if self.count < u64::MAX {
            self.count = self.count + 1;
        }
        if self.count == 1 {
            self.ema = x;
            self.var = 0;
            return ;
        }
        let a: i64 = clamp_i64(self.ema_alpha, 1, 500);
        let prev: i64 = self.ema;
        proof {
            lemma_mul_le((1000 - a) as int, self.ema as int, 999, PROB_ONE as int);
            lemma_mul_le(a as int, x as int, 500, PROB_ONE as int);
            lemma_div_bound(
                ((1000 - a) * self.ema + a * x) as int,
                1000,
                1500000000,
                1000,
            );
        }
        let ema2: i64 = ((1000 - a) * self.ema + a * x) / 1000;
        proof {
            // The numerator is at most 1000 times one probability unit, so
            // the smoothed mean stays within one unit.
            assert((1000 - a) * self.ema + a * x <= 1000 * PROB_ONE) by (nonlinear_arith)
                requires
                    1 <= a <= 500,
                    0 <= self.ema <= PROB_ONE,
                    0 <= x <= PROB_ONE,
                    PROB_ONE == 1000000,
            ;
            lemma_div_bound(
                ((1000 - a) * self.ema + a * x) as int,
                1000,
                1000 * PROB_ONE,
                1000,
            );
        }
        let diff: i64 = x - prev;
        proof {
            lemma_abs_mul_le(diff as int, diff as int, PROB_ONE as int, PROB_ONE as int);
            assert(diff * diff >= 0) by (nonlinear_arith);
        }
        let d2: i64 = diff * diff;
        proof {
            lemma_mul_le(a as int, d2 as int, 500, VAR_LIMIT as int);
            lemma_div_bound((a * d2) as int, 1000, (500 * VAR_LIMIT) as int, 1000);
        }
        let q: i64 = a * d2 / 1000;
        proof {
            // q is at most a billionths-scaled multiple of the clamped
            // factor, which caps the whole variance update at VAR_LIMIT.
            assert(a * d2 <= a * VAR_LIMIT) by (nonlinear_arith)
                requires
                    0 <= d2 <= VAR_LIMIT,
                    a >= 0,
            ;
            vstd::arithmetic::div_mod::lemma_div_is_ordered(
                (a * d2) as int,
                (a * VAR_LIMIT) as int,
                1000,
            );
            assert(a * VAR_LIMIT == (a * 1000000000) * 1000) by (nonlinear_arith)
                requires
                    VAR_LIMIT == 1000000000000,
            ;
            vstd::arithmetic::div_mod::lemma_div_by_multiple(a * 1000000000, 1000);
            assert(q <= a * 1000000000);
            lemma_mul_le((1000 - a) as int, (self.var + q) as int, 999, 1500000000000);
        }
        let inner: i64 = self.var + q;
        proof {
            assert((1000 - a) * inner <= 1000000000000000) by (nonlinear_arith)
                requires
                    1 <= a <= 500,
                    0 <= inner,
                    inner <= 1000000000000 + a * 1000000000,
            ;
            lemma_div_bound(((1000 - a) * inner) as int, 1000, 1000000000000000, 1000);
        }
        let var2: i64 = (1000 - a) * inner / 1000;
        self.ema = ema2;
        self.var = var2;
    }

    /// One gate step, as the contract of the decision path: fold the margin
    /// of the top two probabilities into the baseline, then decide whether
    /// this classifier tick fires a control event.
    pub fn update_and_decide(&mut self, top1: i64, top2: i64, now_ms: u64) -> (fire: bool)
        requires
            old(self).wf(),
            0 <= top2 <= top1 <= PROB_ONE,
        ensures
            final(self).wf(),
            *final(self) == old(self).spec_step(top1, top2, now_ms),
            fire == old(self).spec_fires(top1, top2, now_ms),
    {
        let margin: i64 = if top1 - top2 > 0 {
            top1 - top2
        } else {
            0
        };
        self.update_stats(margin);
        if self.count < (self.warmup as u64) {
            return false;
        }
        let cooldown_ok: bool = match self.last_fire_ms {
            None => true,
            Some(lf) => {
                let e: u64 = if now_ms >= lf {
                    now_ms - lf
                } else {
                    0
                };
                e >= self.cooldown_ms
            },
        };
        if !cooldown_ok {
            return false;
        }
        let std: i64 = isqrt_i64(self.var);
        proof {
            assert(std <= 1000000) by (nonlinear_arith)
                requires
                    std >= 0,
                    std * std <= self.var,
                    self.var <= 1000000000000,
            ;
            lemma_mul_le(self.k_sigma as int, std as int, K_SIGMA_LIMIT as int, 1000000);
            lemma_div_bound((self.k_sigma * std) as int, 1000, 100000000000, 1000);
        }
        let adaptive: i64 = self.ema + self.k_sigma * std / 1000;
        let fire: bool = top1 >= self.min_prob && margin >= adaptive;
        if fire {
            self.last_fire_ms = Some(now_ms);
        }
        fire
    }

    /// The combined decision entry point: extracts the top two
    /// probabilities itself and hands back `cmd` on fire. An empty
    /// probability vector changes nothing and never fires.
    pub fn decide(&mut self, probs: &Vec<i64>, cmd: MappingHelperCommand, now_ms: u64) -> (r:
        Option<MappingHelperCommand>)
        requires
            old(self).wf(),
            spec_probs_wf(probs@),
        ensures
            final(self).wf(),
            probs@.len() == 0 ==> r is None && *final(self) == *old(self),
            probs@.len() > 0 ==> exists|t1: i64, t2: i64|
                {
                    &&& #[trigger] spec_top2(probs@, t1, t2)
                    &&& *final(self) == old(self).spec_step(t1, t2, now_ms)
                    &&& r == (if old(self).spec_fires(t1, t2, now_ms) {
                        Some(cmd)
                    } else {
                        None::<MappingHelperCommand>
                    })
                },
    {
        let top = top2_probs(probs);
        match top {
            None => None,
            Some((t1, t2)) => {
                let fired = self.update_and_decide(t1, t2, now_ms);
                proof {
                    assert(spec_top2(probs@, t1, t2));
                }
                if fired {
                    Some(cmd)
                } else {
                    None
                }
            },
        }
    }
}

/// The adaptive gate run over a whole input sequence of `(top1, top2, time)`
/// classifier ticks: the state after the first `n` steps.
pub open spec fn spec_gate_run(g: AdaptiveGate, s: Seq<(i64, i64, u64)>, n: int) -> AdaptiveGate
    decreases n,
{
    if n <= 0 {
        g
    } else {
        let p = spec_gate_run(g, s, n - 1);
        p.spec_step(s[n - 1].0, s[n - 1].1, s[n - 1].2)
    }
}

/// Along any run, the warmup tunable never changes and the update counter
/// grows by at most one per step.
pub proof fn lemma_gate_run_count(g: AdaptiveGate, s: Seq<(i64, i64, u64)>, n: int)
    requires
        n >= 0,
    ensures
        spec_gate_run(g, s, n).warmup == g.warmup,
        spec_gate_run(g, s, n).count <= g.count + n,
    decreases n,
{
    if n > 0 {
        lemma_gate_run_count(g, s, n - 1);
    }
}

/// Warmup: for any input sequence, a step during which the update counter
/// has not yet reached the warmup count never fires, whatever the margins
/// and probabilities are.
pub proof fn lemma_gate_warmup(g: AdaptiveGate, s: Seq<(i64, i64, u64)>, i: int)
    requires
        0 <= i,
        g.count + i + 1 < g.warmup,
    ensures
        !spec_gate_run(g, s, i).spec_fires(s[i].0, s[i].1, s[i].2),
{
    lemma_gate_run_count(g, s, i);
}

/// Cooldown: of two consecutive classifier ticks that lie within one
/// cooldown window of each other, at most one fires.
pub proof fn lemma_gate_cooldown(
    g: AdaptiveGate,
    t1a: i64,
    t2a: i64,
    n1: u64,
    t1b: i64,
    t2b: i64,
    n2: u64,
)
    requires
        n1 <= n2,
        n2 - n1 < g.cooldown_ms,
        g.spec_fires(t1a, t2a, n1),
    ensures
        !g.spec_step(t1a, t2a, n1).spec_fires(t1b, t2b, n2),
{
}

} // verus!
