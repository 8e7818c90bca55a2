use hermes_hub::archive_inspection::{
    accepted_archive_inspection_status_v1, transition_archive_inspection_status_v1,
    validate_archive_inspection_status_v1, ArchiveEntryInspectionV1, ArchiveEntryKindV1,
    ArchiveInspectionErrorV1, ArchiveInspectionReportV1, ArchiveInspectionStateV1,
    ArchiveInspectionStatusV1, ArchiveInspectionTransitionErrorV1, ArchiveInspectionTransitionV1,
};

fn report() -> ArchiveInspectionReportV1 {
    ArchiveInspectionReportV1 {
        entry_count: 1,
        total_uncompressed_bytes: 42,
        entries: vec![ArchiveEntryInspectionV1 {
            normalized_path: "message.txt".to_owned(),
            compressed_size: 24,
            uncompressed_size: 42,
            kind: ArchiveEntryKindV1::File,
        }],
    }
}

#[test]
fn state_machine_requires_evidence_before_work_and_report_before_ready() {
    let accepted = accepted_archive_inspection_status_v1();
    let awaiting = transition_archive_inspection_status_v1(
        &accepted,
        ArchiveInspectionTransitionV1::AwaitEvidence,
    )
    .expect("awaiting");
    let inspecting = transition_archive_inspection_status_v1(
        &awaiting,
        ArchiveInspectionTransitionV1::BeginInspection,
    )
    .expect("inspecting");
    let ready = transition_archive_inspection_status_v1(
        &inspecting,
        ArchiveInspectionTransitionV1::Complete(report()),
    )
    .expect("ready");
    assert_eq!(ready.state, ArchiveInspectionStateV1::Ready);
    assert_eq!(ready.state_revision, 4);
    assert!(ready.report.is_some());
}

#[test]
fn unsafe_terminal_and_invalid_reentry_fail_closed() {
    let rejected = transition_archive_inspection_status_v1(
        &accepted_archive_inspection_status_v1(),
        ArchiveInspectionTransitionV1::Reject(ArchiveInspectionErrorV1::NotSafe),
    )
    .expect("reject");
    assert_eq!(rejected.state, ArchiveInspectionStateV1::Rejected);
    assert_eq!(rejected.error, Some(ArchiveInspectionErrorV1::NotSafe));
    assert_eq!(
        transition_archive_inspection_status_v1(
            &rejected,
            ArchiveInspectionTransitionV1::BeginInspection,
        ),
        Err(ArchiveInspectionTransitionErrorV1::InvalidTransition)
    );

    let inspecting = transition_archive_inspection_status_v1(
        &accepted_archive_inspection_status_v1(),
        ArchiveInspectionTransitionV1::BeginInspection,
    )
    .expect("inspecting");
    let mut invalid = report();
    invalid.entry_count = 2;
    assert_eq!(
        transition_archive_inspection_status_v1(
            &inspecting,
            ArchiveInspectionTransitionV1::Complete(invalid),
        ),
        Err(ArchiveInspectionTransitionErrorV1::InvalidReport)
    );
}

#[test]
fn ready_status_is_final_for_every_transition() {
    let accepted = accepted_archive_inspection_status_v1();
    let inspecting = transition_archive_inspection_status_v1(
        &accepted,
        ArchiveInspectionTransitionV1::BeginInspection,
    )
    .unwrap();
    let ready = transition_archive_inspection_status_v1(
        &inspecting,
        ArchiveInspectionTransitionV1::Complete(report()),
    )
    .unwrap();
    for transition in [
        ArchiveInspectionTransitionV1::AwaitEvidence,
        ArchiveInspectionTransitionV1::BeginInspection,
        ArchiveInspectionTransitionV1::Complete(report()),
        ArchiveInspectionTransitionV1::Reject(ArchiveInspectionErrorV1::CorruptArchive),
    ] {
        assert_eq!(
            transition_archive_inspection_status_v1(&ready, transition),
            Err(ArchiveInspectionTransitionErrorV1::InvalidTransition)
        );
    }
}

#[test]
fn invalid_current_status_is_refused_first() {
    let broken = ArchiveInspectionStatusV1 {
        state: ArchiveInspectionStateV1::Ready,
        state_revision: 3,
        report: None,
        error: None,
    };
    assert!(!validate_archive_inspection_status_v1(&broken));
    assert_eq!(
        transition_archive_inspection_status_v1(&broken, ArchiveInspectionTransitionV1::AwaitEvidence),
        Err(ArchiveInspectionTransitionErrorV1::InvalidCurrentStatus)
    );
    let zero_revision = ArchiveInspectionStatusV1 {
        state: ArchiveInspectionStateV1::Accepted,
        state_revision: 0,
        report: None,
        error: None,
    };
    assert_eq!(
        transition_archive_inspection_status_v1(
            &zero_revision,
            ArchiveInspectionTransitionV1::AwaitEvidence
        ),
        Err(ArchiveInspectionTransitionErrorV1::InvalidCurrentStatus)
    );
}

#[test]
fn last_revision_cannot_advance() {
    let last = ArchiveInspectionStatusV1 {
        state: ArchiveInspectionStateV1::Accepted,
        state_revision: u64::MAX,
        report: None,
        error: None,
    };
    assert_eq!(
        transition_archive_inspection_status_v1(&last, ArchiveInspectionTransitionV1::AwaitEvidence),
        Err(ArchiveInspectionTransitionErrorV1::InvalidTransition)
    );
}

#[test]
fn report_totals_saturate() {
    let entry = |size| ArchiveEntryInspectionV1 {
        normalized_path: "a".to_owned(),
        compressed_size: 1,
        uncompressed_size: size,
        kind: ArchiveEntryKindV1::File,
    };
    let saturated = ArchiveInspectionReportV1 {
        entry_count: 2,
        total_uncompressed_bytes: u64::MAX,
        entries: vec![entry(u64::MAX - 1), entry(5)],
    };
    let inspecting = transition_archive_inspection_status_v1(
        &accepted_archive_inspection_status_v1(),
        ArchiveInspectionTransitionV1::BeginInspection,
    )
    .unwrap();
    let ready = transition_archive_inspection_status_v1(
        &inspecting,
        ArchiveInspectionTransitionV1::Complete(saturated),
    )
    .unwrap();
    assert_eq!(ready.state, ArchiveInspectionStateV1::Ready);
    assert_eq!(ready.state_revision, 3);
}
