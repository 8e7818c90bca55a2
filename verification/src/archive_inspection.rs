//! The archive-inspection state machine: an accepted archive waits for
//! evidence, is inspected, and ends either `Ready` with a consistent report
//! or `Rejected` with an error. Every status carries a revision that each
//! transition raises by one.

use vstd::prelude::*;

verus! {

/// What an archive entry is.
#[derive(Clone, Copy, Debug, PartialEq, Eq, Structural)]
pub enum ArchiveEntryKindV1 {
    File,
    Directory,
}

/// One inspected entry of an archive.
#[derive(Clone, Debug, PartialEq, Eq)]
pub struct ArchiveEntryInspectionV1 {
    pub normalized_path: String,
    pub compressed_size: u64,
    pub uncompressed_size: u64,
    pub kind: ArchiveEntryKindV1,
}

/// The report that completes an inspection.
#[derive(Clone, Debug, PartialEq, Eq)]
pub struct ArchiveInspectionReportV1 {
    pub entry_count: usize,
    pub total_uncompressed_bytes: u64,
    pub entries: Vec<ArchiveEntryInspectionV1>,
}

#[derive(Clone, Copy, Debug, PartialEq, Eq, Structural)]
pub enum ArchiveInspectionStateV1 {
    Accepted,
    AwaitingEvidence,
    Inspecting,
    Ready,
    Rejected,
}

#[derive(Clone, Copy, Debug, PartialEq, Eq, Structural)]
pub enum ArchiveInspectionErrorV1 {
    NotSafe,
    NotZip,
    PolicyRejected,
    CorruptArchive,
    Unavailable,
}

#[derive(Clone, Debug, PartialEq, Eq)]
pub struct ArchiveInspectionStatusV1 {
    pub state: ArchiveInspectionStateV1,
    pub state_revision: u64,
    pub report: Option<ArchiveInspectionReportV1>,
    pub error: Option<ArchiveInspectionErrorV1>,
}

#[derive(Clone, Debug, PartialEq, Eq)]
pub enum ArchiveInspectionTransitionV1 {
    AwaitEvidence,
    BeginInspection,
    Complete(ArchiveInspectionReportV1),
    Reject(ArchiveInspectionErrorV1),
}

#[derive(Clone, Copy, Debug, PartialEq, Eq, Structural)]
pub enum ArchiveInspectionTransitionErrorV1 {
    InvalidCurrentStatus,
    InvalidTransition,
    InvalidReport,
}

/// `a + b`, capped at `u64::MAX`.
pub open spec fn saturating_sum(a: u64, b: u64) -> u64 {
    if a + b > u64::MAX {
        u64::MAX
    } else {
        (a + b) as u64
    }
}

/// The saturating total of the uncompressed sizes of `entries`, summed from
/// the first entry on.
pub open spec fn total_uncompressed(entries: Seq<ArchiveEntryInspectionV1>) -> u64
    decreases entries.len(),
{
    if entries.len() == 0 {
        0
    } else {
        saturating_sum(total_uncompressed(entries.drop_last()), entries.last().uncompressed_size)
    }
}

/// A report is consistent when its counters agree with its entries.
pub open spec fn report_is_consistent(report: ArchiveInspectionReportV1) -> bool {
    &&& report.entry_count == report.entries@.len()
    &&& report.total_uncompressed_bytes == total_uncompressed(report.entries@)
}

/// The status invariant: a positive revision, a consistent report exactly in
/// `Ready`, and an error exactly in `Rejected`.
pub open spec fn status_is_valid(status: ArchiveInspectionStatusV1) -> bool {
    &&& status.state_revision > 0
    &&& match status.state {
        ArchiveInspectionStateV1::Accepted
        | ArchiveInspectionStateV1::AwaitingEvidence
        | ArchiveInspectionStateV1::Inspecting => status.report is None && status.error is None,
        ArchiveInspectionStateV1::Ready => {
            &&& status.report is Some
            &&& report_is_consistent(status.report->0)
            &&& status.error is None
        },
        ArchiveInspectionStateV1::Rejected => status.report is None && status.error is Some,
    }
}

/// A state from which no transition leads anywhere.
pub open spec fn is_terminal(state: ArchiveInspectionStateV1) -> bool {
    state == ArchiveInspectionStateV1::Ready || state == ArchiveInspectionStateV1::Rejected
}

/// The table of allowed moves: the next state with its report and error, or
/// the reason the move is refused.
pub open spec fn transition_outcome(
    state: ArchiveInspectionStateV1,
    transition: ArchiveInspectionTransitionV1,
) -> Result<
    (ArchiveInspectionStateV1, Option<ArchiveInspectionReportV1>, Option<ArchiveInspectionErrorV1>),
    ArchiveInspectionTransitionErrorV1,
> {
    match (state, transition) {
        (ArchiveInspectionStateV1::Accepted, ArchiveInspectionTransitionV1::AwaitEvidence) => Ok(
            (ArchiveInspectionStateV1::AwaitingEvidence, None, None),
        ),
        (ArchiveInspectionStateV1::Accepted, ArchiveInspectionTransitionV1::BeginInspection)
        | (
            ArchiveInspectionStateV1::AwaitingEvidence,
            ArchiveInspectionTransitionV1::BeginInspection,
        ) => Ok((ArchiveInspectionStateV1::Inspecting, None, None)),
        (ArchiveInspectionStateV1::Inspecting, ArchiveInspectionTransitionV1::Complete(report)) => {
            if report_is_consistent(report) {
                Ok((ArchiveInspectionStateV1::Ready, Some(report), None))
            } else {
                Err(ArchiveInspectionTransitionErrorV1::InvalidReport)
            }
        },
        (ArchiveInspectionStateV1::Accepted, ArchiveInspectionTransitionV1::Reject(error))
        | (ArchiveInspectionStateV1::AwaitingEvidence, ArchiveInspectionTransitionV1::Reject(error))
        | (ArchiveInspectionStateV1::Inspecting, ArchiveInspectionTransitionV1::Reject(error)) => Ok(
            (ArchiveInspectionStateV1::Rejected, None, Some(error)),
        ),
        _ => Err(ArchiveInspectionTransitionErrorV1::InvalidTransition),
    }
}

/// What `transition_archive_inspection_status_v1` returns.
pub open spec fn spec_transition(
    current: ArchiveInspectionStatusV1,
    transition: ArchiveInspectionTransitionV1,
) -> Result<ArchiveInspectionStatusV1, ArchiveInspectionTransitionErrorV1> {
    if !status_is_valid(current) {
        Err(ArchiveInspectionTransitionErrorV1::InvalidCurrentStatus)
    } else {
        match transition_outcome(current.state, transition) {
            Err(error) => Err(error),
            Ok((state, report, error)) => if current.state_revision == u64::MAX {
                Err(ArchiveInspectionTransitionErrorV1::InvalidTransition)
            } else {
                Ok(
                    ArchiveInspectionStatusV1 {
                        state,
                        state_revision: (current.state_revision + 1) as u64,
                        report,
                        error,
                    },
                )
            },
        }
    }
}

/// The status every inspection starts from: `Accepted` at revision 1.
pub fn accepted_archive_inspection_status_v1() -> (status: ArchiveInspectionStatusV1)
    ensures
        status.state == ArchiveInspectionStateV1::Accepted,
        status.state_revision == 1,
        status.report is None,
        status.error is None,
        status_is_valid(status),
{
    ArchiveInspectionStatusV1 {
        state: ArchiveInspectionStateV1::Accepted,
        state_revision: 1,
        report: None,
        error: None,
    }
}

/// Whether `report`'s entry count and byte total agree with its entries.
fn valid_report(report: &ArchiveInspectionReportV1) -> (valid: bool)
    ensures
        valid == report_is_consistent(*report),
{
    if report.entry_count != report.entries.len() {
        return false;
    }
    let mut total: u64 = 0;
    let mut i: usize = 0;
    while i < report.entries.len()
        invariant
            i <= report.entries@.len(),
            total == total_uncompressed(report.entries@.take(i as int)),
        decreases report.entries@.len() - i,
    {
        assert(report.entries@.take(i as int + 1).drop_last() =~= report.entries@.take(i as int));
        total = total.saturating_add(report.entries[i].uncompressed_size);
        i = i + 1;
    }
    assert(report.entries@.take(i as int) =~= report.entries@);
    total == report.total_uncompressed_bytes
}

/// Whether `status` satisfies the status invariant.
pub fn validate_archive_inspection_status_v1(status: &ArchiveInspectionStatusV1) -> (valid: bool)
    ensures
        valid == status_is_valid(*status),
{
    if status.state_revision == 0 {
        return false;
    }
    match status.state {
        ArchiveInspectionStateV1::Accepted
        | ArchiveInspectionStateV1::AwaitingEvidence
        | ArchiveInspectionStateV1::Inspecting => status.report.is_none() && status.error.is_none(),
        ArchiveInspectionStateV1::Ready => {
            match &status.report {
                Some(report) => valid_report(report) && status.error.is_none(),
                None => false,
            }
        },
        ArchiveInspectionStateV1::Rejected => status.report.is_none() && status.error.is_some(),
    }
}

/// Applies `transition` to `current`. A status that breaks the invariant is
/// refused as `InvalidCurrentStatus`; a completion with an inconsistent report
/// as `InvalidReport`; any move outside the table, or past the last revision,
/// as `InvalidTransition`.
pub fn transition_archive_inspection_status_v1(
    current: &ArchiveInspectionStatusV1,
    transition: ArchiveInspectionTransitionV1,
) -> (result: Result<ArchiveInspectionStatusV1, ArchiveInspectionTransitionErrorV1>)
    ensures
        result == spec_transition(*current, transition),
        result matches Ok(next) ==> status_is_valid(next),
        result matches Ok(next) ==> next.state_revision == current.state_revision + 1,
{
    if !validate_archive_inspection_status_v1(current) {
        return Err(ArchiveInspectionTransitionErrorV1::InvalidCurrentStatus);
    }
    let (state, report, error) = match (current.state, transition) {
        (ArchiveInspectionStateV1::Accepted, ArchiveInspectionTransitionV1::AwaitEvidence) => {
            (ArchiveInspectionStateV1::AwaitingEvidence, None, None)
        },
        (
            ArchiveInspectionStateV1::Accepted | ArchiveInspectionStateV1::AwaitingEvidence,
            ArchiveInspectionTransitionV1::BeginInspection,
        ) => (ArchiveInspectionStateV1::Inspecting, None, None),
        (ArchiveInspectionStateV1::Inspecting, ArchiveInspectionTransitionV1::Complete(report)) => {
            if valid_report(&report) {
                (ArchiveInspectionStateV1::Ready, Some(report), None)
            } else {
                return Err(ArchiveInspectionTransitionErrorV1::InvalidReport);
            }
        },
        (
            ArchiveInspectionStateV1::Accepted
            | ArchiveInspectionStateV1::AwaitingEvidence
            | ArchiveInspectionStateV1::Inspecting,
            ArchiveInspectionTransitionV1::Reject(error),
        ) => (ArchiveInspectionStateV1::Rejected, None, Some(error)),
        _ => return Err(ArchiveInspectionTransitionErrorV1::InvalidTransition),
    };
    let state_revision = match current.state_revision.checked_add(1) {
        Some(revision) => revision,
        None => return Err(ArchiveInspectionTransitionErrorV1::InvalidTransition),
    };
    let next = ArchiveInspectionStatusV1 { state, state_revision, report, error };
    if !validate_archive_inspection_status_v1(&next) {
        return Err(ArchiveInspectionTransitionErrorV1::InvalidTransition);
    }
    Ok(next)
}

/// Law: a valid status that is `Ready` or `Rejected` is final; every
/// transition from it is refused as `InvalidTransition`.
pub proof fn lemma_terminal_status_is_final(
    current: ArchiveInspectionStatusV1,
    transition: ArchiveInspectionTransitionV1,
)
    requires
        status_is_valid(current),
        is_terminal(current.state),
    ensures
        spec_transition(current, transition) == Err::<
            ArchiveInspectionStatusV1,
            ArchiveInspectionTransitionErrorV1,
        >(ArchiveInspectionTransitionErrorV1::InvalidTransition),
{
}

/// Law: every accepted transition leads from a valid status to a valid
/// status whose revision is one higher.
pub proof fn lemma_transition_preserves_validity(
    current: ArchiveInspectionStatusV1,
    transition: ArchiveInspectionTransitionV1,
)
    ensures
        spec_transition(current, transition) matches Ok(next) ==> {
            &&& status_is_valid(current)
            &&& status_is_valid(next)
            &&& next.state_revision == current.state_revision + 1
        },
{
}

/// Law: `Ready` is reached only from `Inspecting`, only by completing with a
/// consistent report, and the status keeps exactly that report.
pub proof fn lemma_ready_requires_consistent_report(
    current: ArchiveInspectionStatusV1,
    transition: ArchiveInspectionTransitionV1,
)
    ensures
        spec_transition(current, transition) matches Ok(next) ==> (next.state
            == ArchiveInspectionStateV1::Ready ==> {
            &&& current.state == ArchiveInspectionStateV1::Inspecting
            &&& transition is Complete
            &&& report_is_consistent(transition->Complete_0)
            &&& next.report == Some(transition->Complete_0)
        }),
{
}

/// Law: inspection begins only from `Accepted` or `AwaitingEvidence`, and
/// only through `BeginInspection`.
pub proof fn lemma_inspection_starts_before_any_outcome(
    current: ArchiveInspectionStatusV1,
    transition: ArchiveInspectionTransitionV1,
)
    ensures
        spec_transition(current, transition) matches Ok(next) ==> (next.state
            == ArchiveInspectionStateV1::Inspecting ==> {
            &&& current.state == ArchiveInspectionStateV1::Accepted || current.state
                == ArchiveInspectionStateV1::AwaitingEvidence
            &&& transition == ArchiveInspectionTransitionV1::BeginInspection
        }),
{
}

/// Law: a status that breaks the invariant is refused whatever the
/// transition, and only such a status is refused as `InvalidCurrentStatus`.
pub proof fn lemma_invalid_status_is_refused(
    current: ArchiveInspectionStatusV1,
    transition: ArchiveInspectionTransitionV1,
)
    ensures
        (spec_transition(current, transition) == Err::<
            ArchiveInspectionStatusV1,
            ArchiveInspectionTransitionErrorV1,
        >(ArchiveInspectionTransitionErrorV1::InvalidCurrentStatus)) <==> !status_is_valid(current),
{
}

/// The status one move on from `current`: `state`, the next revision, with
/// `report` and `error`.
pub open spec fn moved_to(
    current: ArchiveInspectionStatusV1,
    state: ArchiveInspectionStateV1,
    report: Option<ArchiveInspectionReportV1>,
    error: Option<ArchiveInspectionErrorV1>,
) -> ArchiveInspectionStatusV1 {
    ArchiveInspectionStatusV1 { state, state_revision: (current.state_revision + 1) as u64, report, error }
}

/// Law: an inspection that has not ended can always be rejected. From a
/// valid `Accepted`, `AwaitingEvidence` or `Inspecting` status below the
/// last revision, `Reject(e)` moves to `Rejected` with the error `e`, no
/// report and the next revision.
pub proof fn lemma_unfinished_inspection_can_be_rejected(
    current: ArchiveInspectionStatusV1,
    e: ArchiveInspectionErrorV1,
)
    requires
        status_is_valid(current),
        current.state == ArchiveInspectionStateV1::Accepted || current.state == ArchiveInspectionStateV1::AwaitingEvidence
            || current.state == ArchiveInspectionStateV1::Inspecting,
        current.state_revision < u64::MAX,
    ensures
        spec_transition(current, ArchiveInspectionTransitionV1::Reject(e)) == Ok::<
            ArchiveInspectionStatusV1,
            ArchiveInspectionTransitionErrorV1,
        >(moved_to(current, ArchiveInspectionStateV1::Rejected, None, Some(e))),
{
}

/// Law: the forward path of an inspection is open. Below the last revision,
/// a valid `Accepted` status may await evidence; `Accepted` or
/// `AwaitingEvidence` may begin inspecting; and `Inspecting` completes with
/// any consistent report, which the `Ready` status then carries.
pub proof fn lemma_inspection_forward_path_is_open(
    current: ArchiveInspectionStatusV1,
    report: ArchiveInspectionReportV1,
)
    requires
        status_is_valid(current),
        current.state_revision < u64::MAX,
    ensures
        current.state == ArchiveInspectionStateV1::Accepted ==> spec_transition(
            current,
            ArchiveInspectionTransitionV1::AwaitEvidence,
        ) == Ok::<ArchiveInspectionStatusV1, ArchiveInspectionTransitionErrorV1>(
            moved_to(current, ArchiveInspectionStateV1::AwaitingEvidence, None, None),
        ),
        current.state == ArchiveInspectionStateV1::Accepted || current.state
            == ArchiveInspectionStateV1::AwaitingEvidence ==> spec_transition(
            current,
            ArchiveInspectionTransitionV1::BeginInspection,
        ) == Ok::<ArchiveInspectionStatusV1, ArchiveInspectionTransitionErrorV1>(
            moved_to(current, ArchiveInspectionStateV1::Inspecting, None, None),
        ),
        current.state == ArchiveInspectionStateV1::Inspecting && report.entry_count == report.entries@.len()
            && report.total_uncompressed_bytes == total_uncompressed(report.entries@) ==> spec_transition(
            current,
            ArchiveInspectionTransitionV1::Complete(report),
        ) == Ok::<ArchiveInspectionStatusV1, ArchiveInspectionTransitionErrorV1>(
            moved_to(current, ArchiveInspectionStateV1::Ready, Some(report), None),
        ),
{
}

} // verus!
