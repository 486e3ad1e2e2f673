//! Plain-value helpers around the classifier collaborator: extracting the
//! top-two probabilities and the winning class from a probability vector,
//! the class-to-command mapping, and the model-file candidate choice.
//!
//! Probabilities are integers in parts per million; running the model and
//! converting its floating-point output happens outside this crate.

use vstd::prelude::*;
use crate::types::MappingHelperCommand;

verus! {

/// One whole unit of probability, in parts per million.
pub const PROB_ONE: i64 = 1000000;

/// A valid probability vector: every entry within `[0, PROB_ONE]`.
pub open spec fn spec_probs_wf(probs: Seq<i64>) -> bool {
    forall|i: int| 0 <= i < probs.len() ==> 0 <= #[trigger] probs[i] <= PROB_ONE
}

/// The contract of the top-two extraction: `t1` is the largest entry, `t2`
/// the largest after removing one occurrence of `t1` (zero when there is
/// only one entry).
pub open spec fn spec_top2(probs: Seq<i64>, t1: i64, t2: i64) -> bool {
    exists|i: int|
        {
            &&& 0 <= i < probs.len()
            &&& probs[i] == t1
            &&& forall|k: int| 0 <= k < probs.len() ==> #[trigger] probs[k] <= t1
            &&& forall|k: int| 0 <= k < probs.len() && k != i ==> #[trigger] probs[k] <= t2
            &&& if probs.len() == 1 {
                t2 == 0
            } else {
                exists|j: int| 0 <= j < probs.len() && j != i && #[trigger] probs[j] == t2
            }
        }
}

/// Returns the two largest probabilities of a non-empty vector, largest
/// first; a single-entry vector pairs its entry with zero.
pub fn top2_probs(probs: &Vec<i64>) -> (r: Option<(i64, i64)>)
    requires
        spec_probs_wf(probs@),
    ensures
        r is Some <==> probs@.len() > 0,
        r matches Some((t1, t2)) ==> spec_top2(probs@, t1, t2) && 0 <= t2 <= t1 <= PROB_ONE,
{
    if probs.len() == 0 {
        return None;
    }
    let mut t1: i64 = probs[0];
    let mut bi: usize = 0;
    let mut t2: i64 = -1;
    let mut i: usize = 1;
    while i < probs.len()
        invariant
            spec_probs_wf(probs@),
            1 <= i <= probs@.len(),
            0 <= bi < i,
            probs@[bi as int] == t1,
            0 <= t1 <= PROB_ONE,
            -1 <= t2 <= t1,
            forall|k: int| 0 <= k < i ==> #[trigger] probs@[k] <= t1,
            forall|k: int| 0 <= k < i && k != bi ==> #[trigger] probs@[k] <= t2,
            i >= 2 ==> exists|j: int| 0 <= j < i && j != bi && #[trigger] probs@[j] == t2,
            i == 1 ==> t2 == -1,
        decreases probs@.len() - i,
    {
        let p = probs[i];
        if p > t1 {
            t2 = t1;
            t1 = p;
            bi = i;
        } else if p > t2 {
            t2 = p;
        }
        i = i + 1;
    }
    if t2 < 0 {
        t2 = 0;
    }
    Some((t1, t2))
}

/// The winning class of a non-empty probability vector: the last index
/// attaining the maximum.
pub fn top_class(probs: &Vec<i64>) -> (r: Option<usize>)
    ensures
        r is Some <==> probs@.len() > 0,
        r matches Some(best) ==> {
            &&& 0 <= best < probs@.len()
            &&& forall|k: int| 0 <= k < probs@.len() ==> #[trigger] probs@[k] <= probs@[
                best as int]
            &&& forall|k: int| best < k < probs@.len() ==> #[trigger] probs@[k] < probs@[
                best as int]
        },
{
    if probs.len() == 0 {
        return None;
    }
    let mut best: usize = 0;
    let mut i: usize = 1;
    while i < probs.len()
        invariant
            1 <= i <= probs@.len(),
            0 <= best < i,
            forall|k: int| 0 <= k < i ==> #[trigger] probs@[k] <= probs@[best as int],
            forall|k: int| best < k < i ==> #[trigger] probs@[k] < probs@[best as int],
        decreases probs@.len() - i,
    {
        if probs[i] >= probs[best] {
            best = i;
        }
        i = i + 1;
    }
    Some(best)
}

/// The class-to-command table: the three trained classes map to left,
/// right and forward on the left stick; any other index maps to nothing.
pub open spec fn spec_class_command(class_idx: int) -> Option<MappingHelperCommand> {
    if class_idx == 0 {
        Some(MappingHelperCommand::PulseLeftStickLeft)
    } else if class_idx == 1 {
        Some(MappingHelperCommand::PulseLeftStickRight)
    } else if class_idx == 2 {
        Some(MappingHelperCommand::PulseLeftStickUp)
    } else {
        None
    }
}

/// Maps a classifier class index to the control command it stands for; only
/// the three trained classes map, any other index is a configuration error
/// reported as `None`.
pub fn map_class_to_mapping_helper(class_idx: usize) -> (r: Option<MappingHelperCommand>)
    ensures
        r == spec_class_command(class_idx as int),
{
    match class_idx {
        0 => Some(MappingHelperCommand::PulseLeftStickLeft),
        1 => Some(MappingHelperCommand::PulseLeftStickRight),
        2 => Some(MappingHelperCommand::PulseLeftStickUp),
        _ => None,
    }
}

/// Picks the model file to load among the fixed candidate locations, given
/// which of them exist, in preference order; checking the file system is
/// the caller's part.
pub fn find_model_path(in_models_dir: bool, in_model_dir: bool, in_cwd: bool) -> (r: Option<
    &'static str,
>)
    ensures
        r is Some <==> (in_models_dir || in_model_dir || in_cwd),
        in_models_dir ==> r is Some && r->0@ == "models/neurogpt.onnx"@,
        !in_models_dir && in_model_dir ==> r is Some && r->0@ == "model/neurogpt.onnx"@,
        !in_models_dir && !in_model_dir && in_cwd ==> r is Some && r->0@ == "neurogpt.onnx"@,
{
    if in_models_dir {
        Some("models/neurogpt.onnx")
    } else if in_model_dir {
        Some("model/neurogpt.onnx")
    } else if in_cwd {
        Some("neurogpt.onnx")
    } else {
        None
    }
}

} // verus!
