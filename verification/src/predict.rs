//! Reduction of a vector of per-class scores to a prediction.
//!
//! Scores enter the library as unsigned order keys (see [`ZERO_SCORE`]):
//! callers encode the runtime's scores with any order-preserving map that
//! sends a zero score to `ZERO_SCORE`, so that comparing two keys compares
//! the scores they encode. The reduction itself then needs nothing more of
//! the encoding.

use vstd::prelude::*;

verus! {

/// The score key under which a zero score is encoded.
pub const ZERO_SCORE: u32 = 0x8000_0000;

/// The outcome of one inference pass: the winning class index and the score
/// key it won with.
#[derive(Debug, Clone, Copy, PartialEq, Eq)]
pub struct ModelPrediction {
    /// The index of the winning class.
    pub label: usize,
    /// The winning score, as an order key.
    pub confidence: u32,
}

/// Reduces a vector of per-class score keys to a prediction.
///
/// The scan tracks the maximum score seen so far and the index at which it
/// occurred, starting from `(0, ZERO_SCORE)`. Only a strictly greater score
/// displaces the current best, so the first index holding the maximum wins,
/// and a vector whose scores are all at most `ZERO_SCORE` yields label `0`
/// with confidence `ZERO_SCORE` — an artifact of the zero-initialised
/// accumulator, not a "no prediction" signal.
pub fn reduce_output(scores: &Vec<u32>) -> (r: ModelPrediction)
    ensures
        r.confidence >= ZERO_SCORE,
        forall|j: int| 0 <= j < scores@.len() ==> scores@[j] <= r.confidence,
        r.confidence > ZERO_SCORE ==> r.label < scores@.len()
            && scores@[r.label as int] == r.confidence
            && (forall|j: int| 0 <= j < r.label ==> scores@[j] < r.confidence),
        r.confidence == ZERO_SCORE ==> r.label == 0,
{
    let mut confidence: u32 = ZERO_SCORE;
    let mut label: usize = 0;
    let n = scores.len();
    let mut i: usize = 0;
    while i < n
        invariant
            n == scores@.len(),
            i <= n,
            confidence >= ZERO_SCORE,
            forall|j: int| 0 <= j < i ==> scores@[j] <= confidence,
            confidence > ZERO_SCORE ==> label < i
                && scores@[label as int] == confidence
                && (forall|j: int| 0 <= j < label ==> scores@[j] < confidence),
            confidence == ZERO_SCORE ==> label == 0,
        decreases n - i,
    {
        let score = scores[i];
        if score > confidence {
            confidence = score;
            label = i;
        }
        i = i + 1;
    }
    ModelPrediction { label, confidence }
}

} // verus!
