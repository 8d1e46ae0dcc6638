//! The candidate evaluator: decides whether, and which, remote candidate
//! replaces the reference image, scanning candidates in the order supplied.

use crate::hash::{spec_similarity_num, ResultHash};
use vstd::prelude::*;

verus! {

/// A similarity tolerance within [0, 1], held exactly as the fraction
/// `num / den`. A candidate is accepted only when its similarity score is
/// strictly greater than this fraction.
#[derive(Clone, Copy, Debug, PartialEq, Eq, Structural)]
pub struct Tolerance {
    pub num: u32,
    pub den: u32,
}

impl Tolerance {
    /// Well-formed: a fraction that lies within [0, 1].
    pub open spec fn wf(self) -> bool {
        1 <= self.den && self.num <= self.den
    }
}

/// What the reference image contributes to the decisions: its resolution
/// and its perceptual digest.
#[derive(Clone, Copy, Debug, PartialEq, Eq, Structural)]
pub struct Reference {
    pub width: u32,
    pub height: u32,
    pub digest: ResultHash,
}

/// What became of one remote candidate before a decision is taken on it:
/// its fetch failed (a transport error or an unsuccessful response status),
/// its bytes did not decode as an image, or it decoded to an image of the
/// given resolution and perceptual digest.
#[derive(Clone, Copy, Debug, PartialEq, Eq, Structural)]
pub enum CandidateOutcome {
    FetchFailed,
    DecodeFailed,
    Decoded { width: u32, height: u32, digest: ResultHash },
}

/// The decision taken on one candidate.
/// `Skip`: its fetch or decode failed; move on without affecting the
/// termination rule. `Stop`: it is not strictly higher in resolution, and
/// the sequence descends, so no later candidate can be; end the scan.
/// `Reject`: higher in resolution but not similar enough; move on.
/// `Accept`: higher in resolution and similar enough; take it.
#[derive(Clone, Copy, Debug, PartialEq, Eq, Structural)]
pub enum Action {
    Skip,
    Stop,
    Reject,
    Accept,
}

/// The verdict on a whole candidate sequence: accept the candidate at the
/// given position, or leave the reference untouched.
#[derive(Clone, Copy, Debug, PartialEq, Eq, Structural)]
pub enum Verdict {
    Accept { index: usize },
    NoUpgrade,
}

/// Width-major lexicographic order on resolutions: the candidate counts as
/// greater only when its width exceeds the reference's, or the widths are
/// equal and its height exceeds the reference's.
pub open spec fn spec_resolution_greater(cand_width: u32, cand_height: u32, ref_width: u32, ref_height: u32) -> bool {
    cand_width > ref_width || (cand_width == ref_width && cand_height > ref_height)
}

/// Whether the similarity score of `a` and `b` strictly exceeds the
/// tolerance: `(64 - hamming) / 64 > num / den`, stated without division.
pub open spec fn spec_exceeds(a: ResultHash, b: ResultHash, t: Tolerance) -> bool {
    spec_similarity_num(a, b) * t.den > t.num * 64
}

/// The decision on one candidate outcome.
pub open spec fn spec_action(r: Reference, c: CandidateOutcome, t: Tolerance) -> Action {
    match c {
        CandidateOutcome::FetchFailed => Action::Skip,
        CandidateOutcome::DecodeFailed => Action::Skip,
        CandidateOutcome::Decoded { width, height, digest } => if !spec_resolution_greater(
            width,
            height,
            r.width,
            r.height,
        ) {
            Action::Stop
        } else if spec_exceeds(r.digest, digest, t) {
            Action::Accept
        } else {
            Action::Reject
        },
    }
}

/// Whether the scan moves past this candidate to the next one.
pub open spec fn spec_continues(r: Reference, c: CandidateOutcome, t: Tolerance) -> bool {
    spec_action(r, c, t) == Action::Skip || spec_action(r, c, t) == Action::Reject
}

/// The verdict on the tail of the candidate sequence that starts at `i`.
pub open spec fn spec_verdict_from(r: Reference, cs: Seq<CandidateOutcome>, t: Tolerance, i: int) -> Verdict
    decreases cs.len() - i,
{
    if i < 0 || i >= cs.len() {
        Verdict::NoUpgrade
    } else {
        match spec_action(r, cs[i], t) {
            Action::Skip => spec_verdict_from(r, cs, t, i + 1),
            Action::Reject => spec_verdict_from(r, cs, t, i + 1),
            Action::Stop => Verdict::NoUpgrade,
            Action::Accept => Verdict::Accept { index: i as usize },
        }
    }
}

/// The verdict on the whole candidate sequence, scanned from the front.
pub open spec fn spec_verdict(r: Reference, cs: Seq<CandidateOutcome>, t: Tolerance) -> Verdict {
    spec_verdict_from(r, cs, t, 0)
}

/// Compare a candidate's resolution to the reference's in width-major
/// lexicographic order: true exactly when the candidate is strictly
/// greater, so a false answer ends the scan of a descending sequence.
pub fn resolution_greater(cand_width: u32, cand_height: u32, ref_width: u32, ref_height: u32) -> (r: bool)
    ensures
        r == spec_resolution_greater(cand_width, cand_height, ref_width, ref_height),
{
    cand_width > ref_width || (cand_width == ref_width && cand_height > ref_height)
}

/// Whether the similarity score of the two digests strictly exceeds the
/// tolerance. The comparison is exact: `(64 - hamming) * den > num * 64`.
pub fn similarity_exceeds(a: &ResultHash, b: &ResultHash, tolerance: &Tolerance) -> (r: bool)
    requires
        tolerance.wf(),
    ensures
        r == spec_exceeds(*a, *b, *tolerance),
{
    let num: u32 = a.similarity_num(b);
    proof {
        assert(num * tolerance.den < 0x1_0000_0000_0000_0000) by (nonlinear_arith)
            requires
                num < 0x1_0000_0000,
                tolerance.den < 0x1_0000_0000,
        ;
        assert(tolerance.num * 64 < 0x1_0000_0000_0000_0000) by (nonlinear_arith)
            requires
                tolerance.num < 0x1_0000_0000,
        ;
    }
    (num as u64) * (tolerance.den as u64) > (tolerance.num as u64) * 64
}

/// Decide one candidate: skip it on a failed fetch or decode; stop the
/// scan when it is not strictly higher in resolution than the reference
/// (the sequence descends, so no later candidate can be); otherwise accept
/// it when its similarity strictly exceeds the tolerance, and reject it
/// alone when it does not.
pub fn candidate_action(reference: &Reference, candidate: &CandidateOutcome, tolerance: &Tolerance) -> (a: Action)
    requires
        tolerance.wf(),
    ensures
        a == spec_action(*reference, *candidate, *tolerance),
{
    match candidate {
        CandidateOutcome::FetchFailed => Action::Skip,
        CandidateOutcome::DecodeFailed => Action::Skip,
        CandidateOutcome::Decoded { width, height, digest } => {
            if !resolution_greater(*width, *height, reference.width, reference.height) {
                Action::Stop
            } else if similarity_exceeds(&reference.digest, digest, tolerance) {
                Action::Accept
            } else {
                Action::Reject
            }
        },
    }
}

/// Scan the candidate outcomes strictly in the order supplied (descending
/// resolution). The first candidate whose decision is `Accept` wins, skips
/// and rejects are passed over, the scan ends at the first candidate that
/// is not strictly higher in resolution, and when no candidate wins there
/// is no upgrade.
pub fn evaluate(reference: &Reference, candidates: &Vec<CandidateOutcome>, tolerance: &Tolerance) -> (v: Verdict)
    requires
        tolerance.wf(),
    ensures
        v == spec_verdict(*reference, candidates@, *tolerance),
{
    let mut i: usize = 0;
    while i < candidates.len()
        invariant
            tolerance.wf(),
            0 <= i <= candidates@.len(),
            spec_verdict(*reference, candidates@, *tolerance) == spec_verdict_from(
                *reference,
                candidates@,
                *tolerance,
                i as int,
            ),
        decreases candidates@.len() - i,
    {
        let action = candidate_action(reference, &candidates[i], tolerance);
        match action {
            Action::Accept => {
                return Verdict::Accept { index: i };
            },
            Action::Stop => {
                return Verdict::NoUpgrade;
            },
            _ => {},
        }
        i = i + 1;
    }
    Verdict::NoUpgrade
}

proof fn lemma_verdict_from_accepts(r: Reference, cs: Seq<CandidateOutcome>, t: Tolerance, k: int, i: int)
    requires
        0 <= k <= i < cs.len(),
        spec_action(r, cs[i], t) == Action::Accept,
        forall|j: int| k <= j < i ==> spec_continues(r, #[trigger] cs[j], t),
    ensures
        spec_verdict_from(r, cs, t, k) == (Verdict::Accept { index: i as usize }),
    decreases i - k,
{
    if k < i {
        lemma_verdict_from_accepts(r, cs, t, k + 1, i);
    }
}

/// A scan accepts the candidate at position `i` whenever that candidate's
/// decision is `Accept` and every earlier candidate is passed over
/// (skipped or rejected) - whatever stands after position `i`: later
/// candidates are never reached.
pub proof fn lemma_verdict_accepts(r: Reference, cs: Seq<CandidateOutcome>, t: Tolerance, i: int)
    requires
        0 <= i < cs.len(),
        spec_action(r, cs[i], t) == Action::Accept,
        forall|j: int| 0 <= j < i ==> spec_continues(r, #[trigger] cs[j], t),
    ensures
        spec_verdict(r, cs, t) == (Verdict::Accept { index: i as usize }),
{
    lemma_verdict_from_accepts(r, cs, t, 0, i);
}

proof fn lemma_verdict_from_stops(r: Reference, cs: Seq<CandidateOutcome>, t: Tolerance, k: int, i: int)
    requires
        0 <= k <= i < cs.len(),
        spec_action(r, cs[i], t) == Action::Stop,
        forall|j: int| k <= j < i ==> spec_continues(r, #[trigger] cs[j], t),
    ensures
        spec_verdict_from(r, cs, t, k) == Verdict::NoUpgrade,
    decreases i - k,
{
    if k < i {
        lemma_verdict_from_stops(r, cs, t, k + 1, i);
    }
}

/// A scan yields no upgrade whenever some candidate's decision is `Stop`
/// and every candidate before it is passed over: the scan ends there, and
/// whatever stands after that position is never reached.
pub proof fn lemma_verdict_stops(r: Reference, cs: Seq<CandidateOutcome>, t: Tolerance, i: int)
    requires
        0 <= i < cs.len(),
        spec_action(r, cs[i], t) == Action::Stop,
        forall|j: int| 0 <= j < i ==> spec_continues(r, #[trigger] cs[j], t),
    ensures
        spec_verdict(r, cs, t) == Verdict::NoUpgrade,
{
    lemma_verdict_from_stops(r, cs, t, 0, i);
}

proof fn lemma_verdict_from_exhausted(r: Reference, cs: Seq<CandidateOutcome>, t: Tolerance, k: int)
    requires
        0 <= k <= cs.len(),
        forall|j: int| k <= j < cs.len() ==> spec_continues(r, #[trigger] cs[j], t),
    ensures
        spec_verdict_from(r, cs, t, k) == Verdict::NoUpgrade,
    decreases cs.len() - k,
{
    if k < cs.len() {
        lemma_verdict_from_exhausted(r, cs, t, k + 1);
    }
}

/// A scan that passes over every candidate - each one skipped or rejected
/// - exhausts the sequence and yields no upgrade.
pub proof fn lemma_verdict_exhausted(r: Reference, cs: Seq<CandidateOutcome>, t: Tolerance)
    requires
        forall|j: int| 0 <= j < cs.len() ==> spec_continues(r, #[trigger] cs[j], t),
    ensures
        spec_verdict(r, cs, t) == Verdict::NoUpgrade,
{
    lemma_verdict_from_exhausted(r, cs, t, 0);
}

} // verus!
