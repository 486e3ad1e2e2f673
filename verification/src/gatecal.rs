//! The adaptive gate's self-calibration: a fixed window during which every
//! classifier tick's margin and top probability are collected, and the
//! derivation that turns the collected distribution into fresh gate
//! tunables.
//!
//! From the sorted margins the derivation takes the quantile matching the
//! requested trigger rate (at an assumed five classifier ticks per second)
//! and expresses it as a multiple of the sample standard deviation; from
//! the sorted top probabilities it takes the eightieth percentile as the
//! probability floor. Both land in fixed clamps, so the derived tunables
//! always satisfy the adaptive gate's own well-formedness bounds.

use vstd::prelude::*;
use vstd::relations::total_ordering;
use vstd::relations::sorted_by;
use vstd::seq_lib::group_to_multiset_ensures;
use vstd::seq_lib::lemma_sorted_unique;
use crate::classifier::PROB_ONE;
use crate::fixed::clamp_i64;
use crate::fixed::div_trunc;
use crate::fixed::isqrt_i64;
use crate::fixed::spec_clamp;
use crate::fixed::spec_div_trunc;
use crate::fixed::spec_isqrt;
use crate::gate::VAR_LIMIT;

verus! {

/// Most samples one calibration window will collect; later ticks of an
/// overlong window are dropped rather than grown without bound.
pub const GATE_CAL_CAP: usize = 1048576;

/// Classifier ticks per second the rate derivation assumes.
pub const INFER_HZ: i64 = 5;

/// The ascending order the calibration quantiles are taken over.
pub open spec fn i64_leq() -> spec_fn(i64, i64) -> bool {
    |x: i64, y: i64| x <= y
}

/// Sum of a sequence of collected samples.
pub open spec fn spec_sum(s: Seq<i64>) -> int
    decreases s.len(),
{
    if s.len() == 0 {
        0
    } else {
        spec_sum(s.drop_last()) + s.last()
    }
}

/// Sum of squared deviations from `mean`.
pub open spec fn spec_ssq(s: Seq<i64>, mean: int) -> int
    decreases s.len(),
{
    if s.len() == 0 {
        0
    } else {
        spec_ssq(s.drop_last(), mean) + (s.last() - mean) * (s.last() - mean)
    }
}

/// How many entries of `s` exceed `v`.
pub open spec fn spec_count_gt(s: Seq<i64>, v: int) -> int
    decreases s.len(),
{
    if s.len() == 0 {
        0
    } else {
        spec_count_gt(s.drop_last(), v) + (if s.last() > v {
            1int
        } else {
            0int
        })
    }
}

proof fn lemma_count_gt_none(s: Seq<i64>, v: int)
    requires
        forall|k: int| 0 <= k < s.len() ==> #[trigger] s[k] <= v,
    ensures
        spec_count_gt(s, v) == 0,
    decreases s.len(),
{
    if s.len() > 0 {
        lemma_count_gt_none(s.drop_last(), v);
    }
}

/// In a sorted sequence, at most `len - 1 - idx` entries exceed the entry
/// at `idx`: the share of a calibration sample that lies above the chosen
/// quantile is bounded by the quantile's own tail.
pub proof fn lemma_sorted_quantile_tail(s: Seq<i64>, idx: int)
    requires
        sorted_by(s, i64_leq()),
        0 <= idx < s.len(),
    ensures
        spec_count_gt(s, s[idx] as int) <= s.len() - 1 - idx,
    decreases s.len(),
{
    if idx == s.len() - 1 {
        assert forall|k: int| 0 <= k < s.len() implies #[trigger] s[k] <= s[idx] as int by {
            if k < idx {
                assert(i64_leq()(s[k], s[idx]));
            }
        }
        lemma_count_gt_none(s, s[idx] as int);
    } else {
        assert(sorted_by(s.drop_last(), i64_leq()));
        assert(s.drop_last()[idx] == s[idx]);
        lemma_sorted_quantile_tail(s.drop_last(), idx);
    }
}

/// Sorts the samples ascending; the result is exactly the specification
/// sort of the input, so callers reason about one well-defined sequence.
pub fn sort_i64(v: &Vec<i64>) -> (s: Vec<i64>)
    ensures
        s@ == v@.sort_by(i64_leq()),
        sorted_by(s@, i64_leq()),
        s@.to_multiset() == v@.to_multiset(),
        s@.len() == v@.len(),
{
    broadcast use group_to_multiset_ensures;

    let mut out: Vec<i64> = Vec::new();
    let mut i: usize = 0;
    proof {
        assert(v@.take(0).to_multiset() =~= out@.to_multiset());
    }
    while i < v.len()
        invariant
            i <= v@.len(),
            out@.len() == i,
            forall|k: int, l: int| 0 <= k < l < out@.len() ==> #[trigger] out@[k] <= #[trigger] out@[l],
            out@.to_multiset() == v@.take(i as int).to_multiset(),
        decreases v@.len() - i,
    {
        broadcast use group_to_multiset_ensures;

        let x = v[i];
        let ghost pre = out@;
        let mut p: usize = 0;
        while p < out.len() && out[p] <= x
            invariant
                p <= out@.len(),
                out@ == pre,
                forall|k: int| 0 <= k < p ==> #[trigger] out@[k] <= x,
            decreases out@.len() - p,
        {
            p = p + 1;
        }
        out.insert(p, x);
        proof {
            assert forall|k: int, l: int| 0 <= k < l < out@.len() implies #[trigger] out@[k]
                <= #[trigger] out@[l] by {
                assert(out@ == pre.insert(p as int, x));
                if l < p {
                    assert(out@[k] == pre[k] && out@[l] == pre[l]);
                } else if k > p {
                    assert(out@[k] == pre[k - 1] && out@[l] == pre[l - 1]);
                } else if k == p {
                    assert(out@[k] == x && out@[l] == pre[l - 1]);
                    assert(p < pre.len() ==> x < pre[p as int]);
                } else if l == p {
                    assert(out@[k] == pre[k] && out@[l] == x);
                } else {
                    assert(out@[k] == pre[k] && out@[l] == pre[l - 1]);
                    if k < p && p <= l - 1 {
                        if p < pre.len() {
                            assert(pre[k] <= x);
                        }
                    }
                }
            }
            assert(v@.take(i + 1).drop_last() =~= v@.take(i as int));
            assert(v@.take(i + 1) =~= v@.take(i as int).push(x));
        }
        i = i + 1;
    }
    proof {
        assert(v@.take(v@.len() as int) =~= v@);
        assert(total_ordering(i64_leq())) by {
            let leq = i64_leq();
            assert forall|x: i64| #[trigger] leq(x, x) by {}
        }
        v@.lemma_sort_by_ensures(i64_leq());
        assert(sorted_by(out@, i64_leq()));
        lemma_sorted_unique(out@, v@.sort_by(i64_leq()), i64_leq());
    }
    out
}

/// The tunables a finished calibration window derives, plus the measured
/// mean and variance the adaptive gate's baseline restarts from.
#[derive(Clone, Copy, Debug, PartialEq, Eq, Structural)]
pub struct GateCalibrationOutcome {
    pub k_sigma: i64,
    pub min_prob: Option<i64>,
    pub mean: i64,
    pub var: i64,
}

/// One gate-calibration collection window.
pub struct GateCalibrationSession {
    pub start_ms: u64,
    pub end_ms: u64,
    pub target_per_min_milli: i64,
    pub margins: Vec<i64>,
    pub top1s: Vec<i64>,
}

/// The sample mean of the collected values (zero mean over an empty
/// window).
pub open spec fn spec_mean(s: Seq<i64>) -> int {
    spec_sum(s) / (if s.len() >= 1 {
        s.len() as int
    } else {
        1
    })
}

/// The sample variance of the collected values around their mean.
pub open spec fn spec_var(s: Seq<i64>) -> int {
    spec_ssq(s, spec_mean(s)) / (if s.len() >= 1 {
        s.len() as int
    } else {
        1
    })
}

/// The index of the `q_ppm` quantile over `n` sorted samples: rounded to
/// the nearest position, clamped into range.
pub open spec fn spec_quantile_index(q_ppm: int, n: int) -> int {
    let base = if n - 1 >= 1 {
        n - 1
    } else {
        1
    };
    let raw = (q_ppm * base + 500000) / 1000000;
    if raw <= n - 1 {
        raw
    } else {
        n - 1
    }
}

/// The per-tick exceed probability matching the requested trigger rate, in
/// parts per million: requested triggers over the window divided by the
/// expected classifier ticks, clamped into `[0.001, 0.5]`.
pub open spec fn spec_exceed_ppm(target_per_min_milli: int, window_s: int) -> int {
    let target_total_milli = target_per_min_milli * window_s / 60;
    let expected = INFER_HZ * window_s;
    spec_clamp(target_total_milli * 1000 / expected, 1000, 500000)
}

/// The margin quantile that the derivation reads, in parts per million:
/// the complement of the exceed probability, clamped into `[0.5, 0.999]`.
pub open spec fn spec_quantile_ppm(target_per_min_milli: int, window_s: int) -> int {
    spec_clamp(1000000 - spec_exceed_ppm(target_per_min_milli, window_s), 500000, 999000)
}

/// What the window derives from its sorted margins `sm` and sorted top
/// probabilities `st`.
pub open spec fn spec_derive(
    target_per_min_milli: int,
    window_s: int,
    sm: Seq<i64>,
    st: Seq<i64>,
) -> GateCalibrationOutcome {
    let mean = spec_mean(sm);
    let var = spec_var(sm);
    let q = if sm.len() == 0 {
        mean
    } else {
        sm[spec_quantile_index(spec_quantile_ppm(target_per_min_milli, window_s), sm.len() as int)] as int
    };
    let stdv = spec_isqrt(if var >= 1000000 {
        var
    } else {
        1000000
    });
    let k_sigma = spec_clamp(spec_div_trunc((q - mean) * 1000, stdv), 500, 5000);
    let min_prob = if st.len() == 0 {
        None
    } else {
        Some(spec_clamp(st[spec_quantile_index(800000, st.len() as int)] as int, 400000, 900000) as i64)
    };
    GateCalibrationOutcome { k_sigma: k_sigma as i64, min_prob, mean: mean as i64, var: var as i64 }
}

impl GateCalibrationSession {
    pub open spec fn wf(self) -> bool {
        &&& self.start_ms + 3000 <= self.end_ms <= self.start_ms + 60000
        &&& 0 <= self.target_per_min_milli <= 60000000
        &&& self.margins@.len() <= GATE_CAL_CAP
        &&& self.top1s@.len() <= GATE_CAL_CAP
        &&& forall|i: int| 0 <= i < self.margins@.len() ==> 0 <= #[trigger] self.margins@[i] <= PROB_ONE
        &&& forall|i: int| 0 <= i < self.top1s@.len() ==> 0 <= #[trigger] self.top1s@[i] <= PROB_ONE
    }

    /// The window length in whole seconds.
    pub open spec fn spec_window_s(self) -> int {
        (self.end_ms - self.start_ms) / 1000
    }

    /// Opens a collection window at `now_ms` whose duration is `seconds`
    /// clamped into 3 to 60 seconds; a negative requested rate counts as
    /// zero, an overlarge one is capped.
    pub fn begin(now_ms: u64, seconds: u32, target_per_min_milli: i64) -> (s: GateCalibrationSession)
        requires
            now_ms <= 0x4000000000000000,
        ensures
            s.wf(),
            s.start_ms == now_ms,
            s.end_ms == now_ms + 1000 * (spec_clamp(seconds as int, 3, 60)),
            s.target_per_min_milli == spec_clamp(target_per_min_milli as int, 0, 60000000),
            s.margins@.len() == 0,
            s.top1s@.len() == 0,
    {
        let secs: u32 = if seconds < 3 {
            3
        } else if seconds > 60 {
            60
        } else {
            seconds
        };
        GateCalibrationSession {
            start_ms: now_ms,
            end_ms: now_ms + 1000 * (secs as u64),
            target_per_min_milli: clamp_i64(target_per_min_milli, 0, 60000000),
            margins: Vec::new(),
            top1s: Vec::new(),
        }
    }

    /// Fraction of the window elapsed at `now`, in parts per million.
    pub open spec fn spec_progress_ppm(self, now: u64) -> int {
        if now >= self.end_ms {
            1000000
        } else if now <= self.start_ms {
            0
        } else {
            (now - self.start_ms) * 1000000 / (self.end_ms - self.start_ms)
        }
    }

    /// The margins after one collected tick: the new margin appended, or
    /// the collection unchanged once at capacity.
    pub open spec fn spec_margins_after(self, top1: i64, top2: i64) -> Seq<i64> {
        if self.margins@.len() < GATE_CAL_CAP && self.top1s@.len() < GATE_CAL_CAP {
            self.margins@.push(crate::gate::spec_margin(top1 as int, top2 as int) as i64)
        } else {
            self.margins@
        }
    }

    /// The top probabilities after one collected tick.
    pub open spec fn spec_top1s_after(self, top1: i64, top2: i64) -> Seq<i64> {
        if self.margins@.len() < GATE_CAL_CAP && self.top1s@.len() < GATE_CAL_CAP {
            self.top1s@.push(top1)
        } else {
            self.top1s@
        }
    }

    /// Fraction of the window already elapsed at `now_ms`, in parts per
    /// million, clamped into `[0, 1000000]`.
    pub fn progress_ppm(&self, now_ms: u64) -> (p: i64)
        requires
            self.wf(),
        ensures
            0 <= p <= 1000000,
            p == self.spec_progress_ppm(now_ms),
    {
        if now_ms >= self.end_ms {
            1000000
        } else if now_ms <= self.start_ms {
            0
        } else {
            let elapsed: u64 = now_ms - self.start_ms;
            let span: u64 = self.end_ms - self.start_ms;
            proof {
                vstd::arithmetic::div_mod::lemma_div_pos_is_pos((elapsed * 1000000) as int, span as int);
                vstd::arithmetic::div_mod::lemma_multiply_divide_lt(
                    (elapsed * 1000000) as int,
                    span as int,
                    1000000,
                );
            }
            ((elapsed * 1000000 / span) as i64)
        }
    }

    /// Whether the collection window has elapsed at `now_ms`.
    pub fn is_elapsed(&self, now_ms: u64) -> (r: bool)
        ensures
            r == (now_ms >= self.end_ms),
    {
        now_ms >= self.end_ms
    }

    /// Collects one classifier tick: the margin of the top two
    /// probabilities and the top probability itself, independent of
    /// whether the adaptive gate would have fired. A window already at capacity
    /// drops the tick.
    pub fn observe(&mut self, top1: i64, top2: i64)
        requires
            old(self).wf(),
            0 <= top2 <= top1 <= PROB_ONE,
        ensures
            final(self).wf(),
            final(self).start_ms == old(self).start_ms,
            final(self).end_ms == old(self).end_ms,
            final(self).target_per_min_milli == old(self).target_per_min_milli,
            old(self).margins@.len() < GATE_CAL_CAP && old(self).top1s@.len() < GATE_CAL_CAP ==> {
                &&& final(self).margins@ == old(self).margins@.push(
                    crate::gate::spec_margin(top1 as int, top2 as int) as i64,
                )
                &&& final(self).top1s@ == old(self).top1s@.push(top1)
            },
            !(old(self).margins@.len() < GATE_CAL_CAP && old(self).top1s@.len() < GATE_CAL_CAP)
                ==> *final(self) == *old(self),
    {
        if self.margins.len() < GATE_CAL_CAP && self.top1s.len() < GATE_CAL_CAP {
            let margin: i64 = if top1 - top2 > 0 {
                top1 - top2
            } else {
                0
            };
            self.margins.push(margin);
            self.top1s.push(top1);
        }
    }

    /// Derives fresh gate tunables from the collected distribution. The
    /// caller hands in the sorted copies of the two collections (from
    /// `sort_i64`); the derived `k_sigma` lands in `[0.5, 5.0]` and the
    /// derived probability floor in `[0.4, 0.9]`, so they always satisfy
    /// the adaptive gate's parameter bounds.
    pub fn derive(&self, sm: &Vec<i64>, st: &Vec<i64>) -> (out: GateCalibrationOutcome)
        requires
            self.wf(),
            sm@ == self.margins@.sort_by(i64_leq()),
            st@ == self.top1s@.sort_by(i64_leq()),
        ensures
            out == spec_derive(
                self.target_per_min_milli as int,
                self.spec_window_s(),
                sm@,
                st@,
            ),
            500 <= out.k_sigma <= 5000,
            out.min_prob matches Some(mp) ==> 400000 <= mp <= 900000,
            out.min_prob is Some <==> self.top1s@.len() > 0,
            0 <= out.mean <= PROB_ONE,
            0 <= out.var <= VAR_LIMIT,
    {
        proof {
            broadcast use group_to_multiset_ensures;

            assert(total_ordering(i64_leq())) by {
                let leq = i64_leq();
                assert forall|x: i64| #[trigger] leq(x, x) by {}
            }
            self.margins@.lemma_sort_by_ensures(i64_leq());
            self.top1s@.lemma_sort_by_ensures(i64_leq());
            lemma_multiset_entry_bounds(self.margins@, sm@, 0, PROB_ONE as int);
            lemma_multiset_entry_bounds(self.top1s@, st@, 0, PROB_ONE as int);
            assert(sm@.to_multiset().len() == sm@.len());
            assert(self.margins@.to_multiset().len() == self.margins@.len());
            assert(st@.to_multiset().len() == st@.len());
            assert(self.top1s@.to_multiset().len() == self.top1s@.len());
        }
        let n: usize = sm.len();
        let nf: i64 = if n == 0 {
            1
        } else {
            n as i64
        };

        let mut sum: i64 = 0;
        let mut i: usize = 0;
        while i < n
            invariant
                n == sm@.len(),
                n <= GATE_CAL_CAP,
                i <= n,
                forall|k: int| 0 <= k < sm@.len() ==> 0 <= #[trigger] sm@[k] <= PROB_ONE,
                sum == spec_sum(sm@.take(i as int)),
                0 <= sum <= i * PROB_ONE,
            decreases n - i,
        {
            proof {
                assert(sm@.take(i + 1).drop_last() =~= sm@.take(i as int));
            }
            sum = sum + sm[i];
            i = i + 1;
        }
        proof {
            assert(sm@.take(n as int) =~= sm@);
            vstd::arithmetic::div_mod::lemma_div_is_ordered(sum as int, (n as int) * PROB_ONE, nf as int);
            vstd::arithmetic::div_mod::lemma_div_pos_is_pos(sum as int, nf as int);
            if n >= 1 {
                vstd::arithmetic::div_mod::lemma_div_by_multiple(PROB_ONE as int, n as int);
                assert((n as int) * PROB_ONE == PROB_ONE * (n as int));
            }
        }
        let mean: i64 = sum / nf;

        let mut ssq: i64 = 0;
        let mut j: usize = 0;
        while j < n
            invariant
                n == sm@.len(),
                n <= GATE_CAL_CAP,
                j <= n,
                0 <= mean <= PROB_ONE,
                forall|k: int| 0 <= k < sm@.len() ==> 0 <= #[trigger] sm@[k] <= PROB_ONE,
                ssq == spec_ssq(sm@.take(j as int), mean as int),
                0 <= ssq <= j * VAR_LIMIT,
            decreases n - j,
        {
            proof {
                assert(sm@.take(j + 1).drop_last() =~= sm@.take(j as int));
                crate::fixed::lemma_abs_mul_le(
                    (sm@[j as int] - mean) as int,
                    (sm@[j as int] - mean) as int,
                    PROB_ONE as int,
                    PROB_ONE as int,
                );
                assert((sm@[j as int] - mean) * (sm@[j as int] - mean) >= 0) by (nonlinear_arith);
            }
            let d: i64 = sm[j] - mean;
            ssq = ssq + d * d;
            j = j + 1;
        }
        proof {
            assert(sm@.take(n as int) =~= sm@);
            vstd::arithmetic::div_mod::lemma_div_is_ordered(ssq as int, (n as int) * VAR_LIMIT, nf as int);
            vstd::arithmetic::div_mod::lemma_div_pos_is_pos(ssq as int, nf as int);
            if n >= 1 {
                vstd::arithmetic::div_mod::lemma_div_by_multiple(VAR_LIMIT as int, n as int);
                assert((n as int) * VAR_LIMIT == VAR_LIMIT * (n as int));
            }
        }
        let var: i64 = ssq / nf;

        let w_s: i64 = ((self.end_ms - self.start_ms) / 1000) as i64;
        proof {
            crate::fixed::lemma_mul_le(self.target_per_min_milli as int, w_s as int, 60000000, 60);
            crate::fixed::lemma_div_bound(
                (self.target_per_min_milli * w_s) as int,
                60,
                3600000000,
                60,
            );
        }
        let target_total_milli: i64 = self.target_per_min_milli * w_s / 60;
        let expected: i64 = INFER_HZ * w_s;
        proof {
            crate::fixed::lemma_div_bound(
                (target_total_milli * 1000) as int,
                expected as int,
                60000000000,
                15,
            );
        }
        let exceed_ppm: i64 = clamp_i64(target_total_milli * 1000 / expected, 1000, 500000);
        let quantile_ppm: i64 = clamp_i64(1000000 - exceed_ppm, 500000, 999000);

        let q: i64 = if n == 0 {
            mean
        } else {
            let base: i64 = if n >= 2 {
                (n - 1) as i64
            } else {
                1
            };
            proof {
                crate::fixed::lemma_mul_le(quantile_ppm as int, base as int, 1000000, GATE_CAL_CAP as int);
                crate::fixed::lemma_div_bound(
                    (quantile_ppm * base + 500000) as int,
                    1000000,
                    1048576500000,
                    1000000,
                );
            }
            let raw: i64 = (quantile_ppm * base + 500000) / 1000000;
            let qi: usize = if raw <= (n - 1) as i64 {
                raw as usize
            } else {
                n - 1
            };
            sm[qi]
        };

        let var_floor: i64 = if var >= 1000000 {
            var
        } else {
            1000000
        };
        let stdv: i64 = isqrt_i64(var_floor);
        proof {
            assert(stdv >= 1000) by (nonlinear_arith)
                requires
                    stdv >= 0,
                    var_floor >= 1000000,
                    var_floor < (stdv + 1) * (stdv + 1),
            ;
        }
        let k_sigma: i64 = clamp_i64(div_trunc((q - mean) * 1000, stdv), 500, 5000);

        let n2: usize = st.len();
        let min_prob: Option<i64> = if n2 == 0 {
            None
        } else {
            let base2: i64 = if n2 >= 2 {
                (n2 - 1) as i64
            } else {
                1
            };
            proof {
                crate::fixed::lemma_mul_le(800000, base2 as int, 800000, GATE_CAL_CAP as int);
                crate::fixed::lemma_div_bound(
                    (800000 * base2 + 500000) as int,
                    1000000,
                    838861300000,
                    1000000,
                );
            }
            let raw2: i64 = (800000 * base2 + 500000) / 1000000;
            let pi: usize = if raw2 <= (n2 - 1) as i64 {
                raw2 as usize
            } else {
                n2 - 1
            };
            Some(clamp_i64(st[pi], 400000, 900000))
        };

        GateCalibrationOutcome { k_sigma, min_prob, mean, var }
    }
}

/// The adaptive gate after a finished calibration window is applied to it: the
/// derived `k_sigma` and probability floor replace the old ones (the floor
/// only when one was derived), the baseline restarts from the measured
/// mean and variance, warmup counts as already served, and the cooldown is
/// open.
pub open spec fn spec_gate_after_calibration(
    g: crate::gate::AdaptiveGate,
    out: GateCalibrationOutcome,
) -> crate::gate::AdaptiveGate {
    crate::gate::AdaptiveGate {
        k_sigma: out.k_sigma,
        min_prob: (match out.min_prob {
            Some(mp) => mp,
            None => g.min_prob,
        }),
        ema: out.mean,
        var: (if out.var >= 0 {
            out.var
        } else {
            0
        }),
        count: (if g.warmup >= 1 {
            g.warmup as u64
        } else {
            1
        }),
        last_fire_ms: None,
        ..g
    }
}

/// Entries of a sequence lie in the range its multiset twin's entries lie
/// in; relates a sorted copy to the collection it came from.
pub proof fn lemma_multiset_entry_bounds(orig: Seq<i64>, other: Seq<i64>, lo: int, hi: int)
    requires
        orig.to_multiset() == other.to_multiset(),
        forall|i: int| 0 <= i < orig.len() ==> lo <= #[trigger] orig[i] <= hi,
    ensures
        forall|i: int| 0 <= i < other.len() ==> lo <= #[trigger] other[i] <= hi,
{
    broadcast use group_to_multiset_ensures;

    assert forall|i: int| 0 <= i < other.len() implies lo <= #[trigger] other[i] <= hi by {
        assert(other.contains(other[i]));
        assert(other.to_multiset().count(other[i]) > 0);
        assert(orig.contains(other[i]));
        let k = choose|k: int| 0 <= k < orig.len() && orig[k] == other[i];
        assert(lo <= orig[k] <= hi);
    }
}

} // verus!
