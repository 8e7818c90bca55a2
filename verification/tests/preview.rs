use hermes_hub::preview_join::{
    AttachmentPreviewEvidenceJoinV1, AttachmentPreviewJoinErrorV1, AttachmentPreviewRequestFactV1,
    AttachmentPreviewSafetyFactV1, AttachmentPreviewScanCandidateFactV1,
};
use hermes_hub::preview_lifecycle::{
    transition_attachment_preview_v1, AttachmentPreviewStateV1, AttachmentPreviewTransitionErrorV1,
};

fn request() -> AttachmentPreviewRequestFactV1 {
    AttachmentPreviewRequestFactV1 {
        run_id: [1; 16],
        attachment_anchor_id: [2; 16],
        logical_owner_id: [3; 16],
    }
}

fn candidate() -> AttachmentPreviewScanCandidateFactV1 {
    AttachmentPreviewScanCandidateFactV1 {
        attachment_anchor_id: [2; 16],
        candidate_message_id: [4; 16],
        candidate_envelope_sha256: [5; 32],
    }
}

fn safety(safe: bool) -> AttachmentPreviewSafetyFactV1 {
    AttachmentPreviewSafetyFactV1 {
        attachment_anchor_id: [2; 16],
        safety_message_id: [6; 16],
        safety_evidence_id: [7; 16],
        safe_for_delivery: safe,
    }
}

#[test]
fn join_is_order_independent_and_carries_no_blob_authority() {
    let request = request();
    let candidate = candidate();
    let safety = safety(true);
    let mut first = AttachmentPreviewEvidenceJoinV1::default();
    first.observe_request(request).unwrap();
    first.observe_candidate(candidate).unwrap();
    first.observe_safety(safety).unwrap();
    let mut second = AttachmentPreviewEvidenceJoinV1::default();
    second.observe_safety(safety).unwrap();
    second.observe_candidate(candidate).unwrap();
    second.observe_request(request).unwrap();
    assert_eq!(first.delegation_intent(), second.delegation_intent());
}

#[test]
fn collision_and_unsafe_evidence_fail_closed() {
    let mut join = AttachmentPreviewEvidenceJoinV1::default();
    join.observe_request(AttachmentPreviewRequestFactV1 {
        run_id: [1; 16],
        attachment_anchor_id: [2; 16],
        logical_owner_id: [3; 16],
    })
    .unwrap();
    assert_eq!(
        join.observe_request(AttachmentPreviewRequestFactV1 {
            run_id: [1; 16],
            attachment_anchor_id: [9; 16],
            logical_owner_id: [3; 16],
        }),
        Err(AttachmentPreviewJoinErrorV1::Collision)
    );
}

#[test]
fn intent_carries_the_fact_identifiers() {
    let mut join = AttachmentPreviewEvidenceJoinV1::new();
    assert_eq!(join.delegation_intent(), Ok(None));
    join.observe_candidate(candidate()).unwrap();
    join.observe_request(request()).unwrap();
    assert_eq!(join.delegation_intent(), Ok(None));
    join.observe_safety(safety(true)).unwrap();
    let intent = join.delegation_intent().unwrap().unwrap();
    assert_eq!(intent.run_id, [1; 16]);
    assert_eq!(intent.attachment_anchor_id, [2; 16]);
    assert_eq!(intent.logical_owner_id, [3; 16]);
    assert_eq!(intent.candidate_message_id, [4; 16]);
    assert_eq!(intent.candidate_envelope_sha256, [5; 32]);
    assert_eq!(intent.safety_message_id, [6; 16]);
    assert_eq!(intent.safety_evidence_id, [7; 16]);
}

#[test]
fn unsafe_verdict_and_mismatched_anchor_refuse_the_intent() {
    let mut unsafe_join = AttachmentPreviewEvidenceJoinV1::new();
    unsafe_join.observe_request(request()).unwrap();
    unsafe_join.observe_candidate(candidate()).unwrap();
    unsafe_join.observe_safety(safety(false)).unwrap();
    assert_eq!(unsafe_join.delegation_intent(), Err(AttachmentPreviewJoinErrorV1::NotSafe));

    let mut mismatched = AttachmentPreviewEvidenceJoinV1::new();
    mismatched.observe_request(request()).unwrap();
    let mut other = candidate();
    other.attachment_anchor_id = [8; 16];
    mismatched.observe_candidate(other).unwrap();
    mismatched.observe_safety(safety(true)).unwrap();
    assert_eq!(mismatched.delegation_intent(), Err(AttachmentPreviewJoinErrorV1::Collision));
}

#[test]
fn zero_identifiers_are_invalid_facts() {
    let mut join = AttachmentPreviewEvidenceJoinV1::new();
    let mut bad = request();
    bad.logical_owner_id = [0; 16];
    assert_eq!(join.observe_request(bad), Err(AttachmentPreviewJoinErrorV1::InvalidFact));
    let mut bad_candidate = candidate();
    bad_candidate.candidate_envelope_sha256 = [0; 32];
    assert_eq!(
        join.observe_candidate(bad_candidate),
        Err(AttachmentPreviewJoinErrorV1::InvalidFact)
    );
    let mut bad_safety = safety(true);
    bad_safety.safety_evidence_id = [0; 16];
    assert_eq!(join.observe_safety(bad_safety), Err(AttachmentPreviewJoinErrorV1::InvalidFact));
    assert_eq!(join, AttachmentPreviewEvidenceJoinV1::new());
}

#[test]
fn repeated_fact_is_accepted_once() {
    let mut join = AttachmentPreviewEvidenceJoinV1::new();
    join.observe_request(request()).unwrap();
    let snapshot = join;
    assert_eq!(join.observe_request(request()), Ok(()));
    assert_eq!(join, snapshot);
}

#[test]
fn terminal_states_cannot_be_reopened() {
    assert_eq!(
        transition_attachment_preview_v1(
            AttachmentPreviewStateV1::Ready,
            AttachmentPreviewStateV1::Rendering,
        ),
        Err(AttachmentPreviewTransitionErrorV1::InvalidTransition)
    );
    assert_eq!(
        transition_attachment_preview_v1(
            AttachmentPreviewStateV1::Rendering,
            AttachmentPreviewStateV1::Ready,
        ),
        Ok(AttachmentPreviewStateV1::Ready)
    );
}

#[test]
fn unspecified_state_and_self_moves() {
    assert_eq!(
        transition_attachment_preview_v1(
            AttachmentPreviewStateV1::Unspecified,
            AttachmentPreviewStateV1::Accepted,
        ),
        Err(AttachmentPreviewTransitionErrorV1::InvalidState)
    );
    assert_eq!(
        transition_attachment_preview_v1(
            AttachmentPreviewStateV1::Rejected,
            AttachmentPreviewStateV1::Rejected,
        ),
        Ok(AttachmentPreviewStateV1::Rejected)
    );
    assert_eq!(
        transition_attachment_preview_v1(
            AttachmentPreviewStateV1::Accepted,
            AttachmentPreviewStateV1::Rendering,
        ),
        Err(AttachmentPreviewTransitionErrorV1::InvalidTransition)
    );
}
