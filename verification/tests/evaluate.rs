use finch::evaluate::{
    candidate_action, evaluate, Action, CandidateOutcome, Reference, Tolerance, Verdict,
};
use finch::hash::ResultHash;

fn tolerance_09() -> Tolerance {
    Tolerance { num: 9, den: 10 }
}

fn reference_100() -> Reference {
    Reference {
        width: 100,
        height: 100,
        digest: ResultHash {
            digest: 0xDEADBEEF01234567,
        },
    }
}

/// A digest differing from the reference's in `bits` low bits.
fn digest_away(reference: &Reference, bits: u32) -> ResultHash {
    let mask: u64 = if bits == 0 { 0 } else { u64::MAX >> (64 - bits) };
    ResultHash {
        digest: reference.digest.digest ^ mask,
    }
}

/// A simulated remote candidate: what its fetch and decode would yield.
struct SimCandidate {
    fetch_ok: bool,
    decode_ok: bool,
    width: u32,
    height: u32,
    digest: ResultHash,
}

/// Drive the scan the way a caller with a fetch collaborator does: fetch
/// candidates one at a time, strictly in order, and act on each decision.
/// Returns the verdict and how many fetches were attempted.
fn drive(reference: &Reference, candidates: &[SimCandidate], tolerance: &Tolerance) -> (Verdict, usize) {
    let mut fetches = 0;
    for (i, candidate) in candidates.iter().enumerate() {
        fetches += 1;
        let outcome = if !candidate.fetch_ok {
            CandidateOutcome::FetchFailed
        } else if !candidate.decode_ok {
            CandidateOutcome::DecodeFailed
        } else {
            CandidateOutcome::Decoded {
                width: candidate.width,
                height: candidate.height,
                digest: candidate.digest,
            }
        };
        match candidate_action(reference, &outcome, tolerance) {
            Action::Skip | Action::Reject => continue,
            Action::Stop => return (Verdict::NoUpgrade, fetches),
            Action::Accept => return (Verdict::Accept { index: i }, fetches),
        }
    }
    (Verdict::NoUpgrade, fetches)
}

#[test]
fn accepts_higher_resolution_similar_candidate() {
    // Reference 100x100; the candidate decodes to 200x200 with similarity
    // 63/64 (about 0.98) against tolerance 0.9: accepted.
    let reference = reference_100();
    let candidates = vec![CandidateOutcome::Decoded {
        width: 200,
        height: 200,
        digest: digest_away(&reference, 1),
    }];

    let verdict = evaluate(&reference, &candidates, &tolerance_09());
    assert_eq!(verdict, Verdict::Accept { index: 0 });
}

#[test]
fn rejects_dissimilar_candidate() {
    // Reference 100x100; the candidate decodes to 200x200 with similarity
    // 0.50 against tolerance 0.9: rejected, and with no further candidates
    // the verdict is no upgrade.
    let reference = reference_100();
    let outcome = CandidateOutcome::Decoded {
        width: 200,
        height: 200,
        digest: digest_away(&reference, 32),
    };

    assert_eq!(
        candidate_action(&reference, &outcome, &tolerance_09()),
        Action::Reject
    );
    let verdict = evaluate(&reference, &vec![outcome], &tolerance_09());
    assert_eq!(verdict, Verdict::NoUpgrade);
}

#[test]
fn first_acceptance_ends_the_scan() {
    // Two high-similarity candidates in descending resolution: the first is
    // accepted and the second is never fetched.
    let reference = reference_100();
    let candidates = [
        SimCandidate {
            fetch_ok: true,
            decode_ok: true,
            width: 300,
            height: 300,
            digest: digest_away(&reference, 0),
        },
        SimCandidate {
            fetch_ok: true,
            decode_ok: true,
            width: 250,
            height: 250,
            digest: digest_away(&reference, 0),
        },
    ];

    let (verdict, fetches) = drive(&reference, &candidates, &tolerance_09());
    assert_eq!(verdict, Verdict::Accept { index: 0 });
    assert_eq!(fetches, 1);
}

#[test]
fn equal_resolution_stops_the_scan() {
    // A candidate of the reference's own resolution stops the scan at once:
    // no upgrade, and no fetch for any remaining candidate.
    let reference = reference_100();
    let candidates = [
        SimCandidate {
            fetch_ok: true,
            decode_ok: true,
            width: 100,
            height: 100,
            digest: digest_away(&reference, 0),
        },
        SimCandidate {
            fetch_ok: true,
            decode_ok: true,
            width: 90,
            height: 90,
            digest: digest_away(&reference, 0),
        },
    ];

    let (verdict, fetches) = drive(&reference, &candidates, &tolerance_09());
    assert_eq!(verdict, Verdict::NoUpgrade);
    assert_eq!(fetches, 1);
}

#[test]
fn failed_fetch_is_skipped_not_fatal() {
    // The first candidate's fetch fails: it is skipped without ending the
    // scan, and the next candidate is still fetched and accepted.
    let reference = reference_100();
    let candidates = [
        SimCandidate {
            fetch_ok: false,
            decode_ok: true,
            width: 300,
            height: 300,
            digest: digest_away(&reference, 0),
        },
        SimCandidate {
            fetch_ok: true,
            decode_ok: true,
            width: 200,
            height: 200,
            digest: digest_away(&reference, 1),
        },
    ];

    let (verdict, fetches) = drive(&reference, &candidates, &tolerance_09());
    assert_eq!(verdict, Verdict::Accept { index: 1 });
    assert_eq!(fetches, 2);
}

#[test]
fn failed_decode_is_skipped_not_fatal() {
    let reference = reference_100();
    let candidates = vec![
        CandidateOutcome::DecodeFailed,
        CandidateOutcome::Decoded {
            width: 200,
            height: 200,
            digest: digest_away(&reference, 0),
        },
    ];

    let verdict = evaluate(&reference, &candidates, &tolerance_09());
    assert_eq!(verdict, Verdict::Accept { index: 1 });
}

#[test]
fn resolution_order_is_width_major_lexicographic() {
    // A candidate wider but shorter than the reference still counts as
    // greater; one of equal width counts only on a greater height.
    let reference = reference_100();
    let wider = CandidateOutcome::Decoded {
        width: 101,
        height: 10,
        digest: digest_away(&reference, 0),
    };
    let taller = CandidateOutcome::Decoded {
        width: 100,
        height: 101,
        digest: digest_away(&reference, 0),
    };
    let narrower = CandidateOutcome::Decoded {
        width: 99,
        height: 1000,
        digest: digest_away(&reference, 0),
    };

    let t = tolerance_09();
    assert_eq!(candidate_action(&reference, &wider, &t), Action::Accept);
    assert_eq!(candidate_action(&reference, &taller, &t), Action::Accept);
    assert_eq!(candidate_action(&reference, &narrower, &t), Action::Stop);
}

#[test]
fn similarity_equal_to_tolerance_is_rejected() {
    // The tolerance comparison is strict: similarity 32/64 against a
    // tolerance of exactly 1/2 does not accept.
    let reference = reference_100();
    let half = Tolerance { num: 1, den: 2 };
    let at_tolerance = CandidateOutcome::Decoded {
        width: 200,
        height: 200,
        digest: digest_away(&reference, 32),
    };
    let above_tolerance = CandidateOutcome::Decoded {
        width: 200,
        height: 200,
        digest: digest_away(&reference, 31),
    };

    assert_eq!(
        candidate_action(&reference, &at_tolerance, &half),
        Action::Reject
    );
    assert_eq!(
        candidate_action(&reference, &above_tolerance, &half),
        Action::Accept
    );
}

#[test]
fn empty_candidate_sequence_is_no_upgrade() {
    let reference = reference_100();
    let verdict = evaluate(&reference, &Vec::new(), &tolerance_09());
    assert_eq!(verdict, Verdict::NoUpgrade);
}
