//! The amplitude-calibration controller: a short fixed-duration capture
//! window that tracks the running maximum absolute amplitude over all
//! channels and, once the window has elapsed, emits its result exactly once.
//!
//! The caller runs two sessions in turn (relax, action) and combines the two
//! maxima into an operating threshold itself; this component only captures.
//! A finished session stays silent on every further sample until it is
//! explicitly restarted.

use vstd::prelude::*;
use crate::filter::AMP_LIMIT;
use crate::types::CalibrationTarget;

verus! {

/// Length of one capture window in milliseconds.
pub const CALIB_WINDOW_MS: u64 = 3000;

pub open spec fn spec_abs(x: int) -> int {
    if x >= 0 {
        x
    } else {
        -x
    }
}

pub open spec fn spec_max(a: int, b: int) -> int {
    if a >= b {
        a
    } else {
        b
    }
}

/// The largest absolute amplitude in a sample vector (zero when empty).
pub open spec fn spec_max_abs(data: Seq<i64>) -> int
    decreases data.len(),
{
    if data.len() == 0 {
        0
    } else {
        spec_max(spec_max_abs(data.drop_last()), spec_abs(data.last() as int))
    }
}

/// Milliseconds since `start` on a clock that never runs backwards; an
/// earlier `now` counts as zero elapsed.
pub open spec fn spec_elapsed(start: u64, now: u64) -> int {
    if now >= start {
        now - start
    } else {
        0
    }
}

/// One calibration capture session.
pub struct CalibrationController {
    pub target: CalibrationTarget,
    pub start_ms: u64,
    pub max_abs: i64,
    pub finished: bool,
}

impl CalibrationController {
    pub open spec fn wf(self) -> bool {
        0 <= self.max_abs <= AMP_LIMIT
    }

    /// Whether an `observe` call at time `now` emits the session's result:
    /// the window has elapsed and nothing was emitted before.
    pub open spec fn spec_emits(self, now: u64) -> bool {
        spec_elapsed(self.start_ms, now) >= CALIB_WINDOW_MS && !self.finished
    }

    /// The session after observing `data` at time `now`.
    pub open spec fn spec_after_observe(self, data: Seq<i64>, now: u64) -> CalibrationController {
        CalibrationController {
            max_abs: spec_max(self.max_abs as int, spec_max_abs(data)) as i64,
            finished: self.finished || spec_elapsed(self.start_ms, now) >= CALIB_WINDOW_MS,
            ..self
        }
    }

    /// What observing `data` at time `now` returns: the target and the
    /// updated running maximum when the session emits, nothing otherwise.
    pub open spec fn spec_observe_result(self, data: Seq<i64>, now: u64) -> Option<
        (CalibrationTarget, i64),
    > {
        if self.spec_emits(now) {
            Some((self.target, spec_max(self.max_abs as int, spec_max_abs(data)) as i64))
        } else {
            None
        }
    }

    /// Opens a session for `target` at time `now_ms`, with the running
    /// maximum reset to zero.
    pub fn start(target: CalibrationTarget, now_ms: u64) -> (c: CalibrationController)
        ensures
            c.wf(),
            c == (CalibrationController {
                target,
                start_ms: now_ms,
                max_abs: 0,
                finished: false,
            }),
    {
        CalibrationController { target, start_ms: now_ms, max_abs: 0, finished: false }
    }

    /// Folds one sample vector into the running maximum; once the window
    /// has elapsed, returns the `(target, maximum)` result, exactly once
    /// per session.
    pub fn observe(&mut self, data: &Vec<i64>, now_ms: u64) -> (r: Option<
        (CalibrationTarget, i64),
    >)
        requires
            old(self).wf(),
            forall|i: int| 0 <= i < data@.len() ==> -AMP_LIMIT <= #[trigger] data@[i] <= AMP_LIMIT,
        ensures
            final(self).wf(),
            *final(self) == old(self).spec_after_observe(data@, now_ms),
            r == old(self).spec_observe_result(data@, now_ms),
    {
        let mut m: i64 = self.max_abs;
        let mut i: usize = 0;
        while i < data.len()
            invariant
                i <= data@.len(),
                forall|j: int| 0 <= j < data@.len() ==> -AMP_LIMIT <= #[trigger] data@[j]
                    <= AMP_LIMIT,
                0 <= m <= AMP_LIMIT,
                m == spec_max(self.max_abs as int, spec_max_abs(data@.take(i as int))),
                self.max_abs >= 0,
            decreases data@.len() - i,
        {
            let v = data[i];
            let a: i64 = if v >= 0 {
                v
            } else {
                -v
            };
            if a > m {
                m = a;
            }
            proof {
                assert(data@.take(i + 1).drop_last() =~= data@.take(i as int));
            }
            i = i + 1;
        }
        proof {
            assert(data@.take(data@.len() as int) =~= data@);
        }
        self.max_abs = m;
        let elapsed: u64 = if now_ms >= self.start_ms {
            now_ms - self.start_ms
        } else {
            0
        };
        if elapsed >= CALIB_WINDOW_MS {
            let was_finished = self.finished;
            self.finished = true;
            if !was_finished {
                return Some((self.target, m));
            }
        }
        None
    }
}

/// A session run over a whole stream: each step observes one sample
/// vector at one time.
pub open spec fn spec_observe_run(
    c: CalibrationController,
    steps: Seq<(Seq<i64>, u64)>,
) -> CalibrationController
    decreases steps.len(),
{
    if steps.len() == 0 {
        c
    } else {
        spec_observe_run(c.spec_after_observe(steps[0].0, steps[0].1), steps.drop_first())
    }
}

proof fn lemma_observe_run_constant(c: CalibrationController, steps: Seq<(Seq<i64>, u64)>, a: int)
    requires
        forall|k: int| 0 <= k < steps.len() ==> spec_max_abs(#[trigger] steps[k].0) == a,
        0 <= a <= AMP_LIMIT,
        0 <= c.max_abs <= AMP_LIMIT,
    ensures
        spec_observe_run(c, steps).target == c.target,
        spec_observe_run(c, steps).max_abs == if steps.len() == 0 {
            c.max_abs as int
        } else {
            spec_max(c.max_abs as int, a)
        },
    decreases steps.len(),
{
    if steps.len() > 0 {
        let c1 = c.spec_after_observe(steps[0].0, steps[0].1);
        assert(spec_max_abs(steps[0].0) == a);
        assert(forall|k: int|
            0 <= k < steps.drop_first().len() ==> spec_max_abs(
                #[trigger] steps.drop_first()[k].0,
            ) == a);
        lemma_observe_run_constant(c1, steps.drop_first(), a);
    }
}

/// Feeding a constant-amplitude stream to a freshly started session:
/// whenever the session emits, the result is the session's target paired
/// with exactly that amplitude.
pub proof fn lemma_calibration_constant_stream(
    c: CalibrationController,
    steps: Seq<(Seq<i64>, u64)>,
    a: int,
    i: int,
)
    requires
        c.max_abs == 0,
        0 <= a <= AMP_LIMIT,
        forall|k: int| 0 <= k < steps.len() ==> spec_max_abs(#[trigger] steps[k].0) == a,
        0 <= i < steps.len(),
    ensures
        ({
            let ci = spec_observe_run(c, steps.take(i));
            ci.spec_observe_result(steps[i].0, steps[i].1) matches Some((target, m))
                ==> target == c.target && m == a
        }),
{
    assert(forall|k: int|
        0 <= k < steps.take(i).len() ==> spec_max_abs(#[trigger] steps.take(i)[k].0) == a);
    lemma_observe_run_constant(c, steps.take(i), a);
    assert(spec_max_abs(steps[i].0) == a);
}

/// Once a session's window has elapsed and its result went out, every later
/// `observe` stays silent until the session is explicitly restarted.
pub proof fn lemma_calibration_emits_once(
    c: CalibrationController,
    d1: Seq<i64>,
    n1: u64,
    d2: Seq<i64>,
    n2: u64,
)
    ensures
        spec_elapsed(c.start_ms, n1) >= CALIB_WINDOW_MS ==> c.spec_after_observe(
            d1,
            n1,
        ).spec_observe_result(d2, n2) is None,
{
}

} // verus!
