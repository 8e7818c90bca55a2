//! The attachment-preview lifecycle: which state may follow which.

use vstd::prelude::*;

verus! {

use AttachmentPreviewStateV1::{Accepted, AwaitingEvidence, Ready, Rejected, Rendering, Unsupported};

/// The lifecycle state of an attachment preview.
#[derive(Clone, Copy, Debug, PartialEq, Eq, Structural)]
pub enum AttachmentPreviewStateV1 {
    Unspecified,
    Accepted,
    AwaitingEvidence,
    Rendering,
    Ready,
    Unsupported,
    Rejected,
}

#[derive(Clone, Copy, Debug, PartialEq, Eq, Structural)]
pub enum AttachmentPreviewTransitionErrorV1 {
    InvalidState,
    InvalidTransition,
}

/// The moves between two different states that the lifecycle allows.
pub open spec fn preview_move_allowed(
    current: AttachmentPreviewStateV1,
    next: AttachmentPreviewStateV1,
) -> bool {
    match (current, next) {
        (Accepted, AwaitingEvidence) | (Accepted, Rejected) | (AwaitingEvidence, Rendering) | (
            AwaitingEvidence,
            Unsupported,
        ) | (AwaitingEvidence, Rejected) | (Rendering, Ready) | (Rendering, Unsupported) | (
            Rendering,
            Rejected,
        ) => true,
        _ => false,
    }
}

/// A state after which the preview never changes.
pub open spec fn preview_state_is_terminal(state: AttachmentPreviewStateV1) -> bool {
    state == AttachmentPreviewStateV1::Ready || state == AttachmentPreviewStateV1::Unsupported
        || state == AttachmentPreviewStateV1::Rejected
}

/// What `transition_attachment_preview_v1` returns.
pub open spec fn spec_preview_transition(
    current: AttachmentPreviewStateV1,
    next: AttachmentPreviewStateV1,
) -> Result<AttachmentPreviewStateV1, AttachmentPreviewTransitionErrorV1> {
    if current == next {
        Ok(current)
    } else if preview_move_allowed(current, next) {
        Ok(next)
    } else if current == AttachmentPreviewStateV1::Unspecified || next
        == AttachmentPreviewStateV1::Unspecified {
        Err(AttachmentPreviewTransitionErrorV1::InvalidState)
    } else {
        Err(AttachmentPreviewTransitionErrorV1::InvalidTransition)
    }
}

/// Moves a preview from `current` to `next`. Staying in a state is always
/// accepted; a move outside the lifecycle is `InvalidTransition`, or
/// `InvalidState` when either side is `Unspecified`.
pub fn transition_attachment_preview_v1(
    current: AttachmentPreviewStateV1,
    next: AttachmentPreviewStateV1,
) -> (result: Result<AttachmentPreviewStateV1, AttachmentPreviewTransitionErrorV1>)
    ensures
        result == spec_preview_transition(current, next),
{
    if current == next {
        return Ok(current);
    }
    let allowed = match (current, next) {
        (Accepted, AwaitingEvidence)
        | (Accepted, Rejected)
        | (AwaitingEvidence, Rendering)
        | (AwaitingEvidence, Unsupported)
        | (AwaitingEvidence, Rejected)
        | (Rendering, Ready)
        | (Rendering, Unsupported)
        | (Rendering, Rejected) => true,
        _ => false,
    };
    if allowed {
        Ok(next)
    } else if current == AttachmentPreviewStateV1::Unspecified || next
        == AttachmentPreviewStateV1::Unspecified {
        Err(AttachmentPreviewTransitionErrorV1::InvalidState)
    } else {
        Err(AttachmentPreviewTransitionErrorV1::InvalidTransition)
    }
}

/// Law: a terminal preview cannot be reopened; every move to another state
/// is refused.
pub proof fn lemma_terminal_preview_cannot_reopen(
    current: AttachmentPreviewStateV1,
    next: AttachmentPreviewStateV1,
)
    requires
        preview_state_is_terminal(current),
        current != next,
    ensures
        spec_preview_transition(current, next) is Err,
{
}

/// Law: an accepted transition lands on the state asked for, and the
/// lifecycle only moves forward: no chain of accepted moves returns to a
/// state it left.
pub proof fn lemma_preview_moves_forward(
    current: AttachmentPreviewStateV1,
    next: AttachmentPreviewStateV1,
)
    ensures
        spec_preview_transition(current, next) matches Ok(state) ==> state == next,
        spec_preview_transition(current, next) is Ok && current != next ==> preview_rank(current)
            < preview_rank(next),
{
}

/// The position of a state along the lifecycle.
pub open spec fn preview_rank(state: AttachmentPreviewStateV1) -> int {
    match state {
        AttachmentPreviewStateV1::Unspecified => 0,
        AttachmentPreviewStateV1::Accepted => 1,
        AttachmentPreviewStateV1::AwaitingEvidence => 2,
        AttachmentPreviewStateV1::Rendering => 3,
        AttachmentPreviewStateV1::Ready => 4,
        AttachmentPreviewStateV1::Unsupported => 4,
        AttachmentPreviewStateV1::Rejected => 4,
    }
}

/// Law: the moves of the lifecycle. Between two different specified
/// states, a move is accepted, and lands on the state asked for, exactly
/// when it follows the path `Accepted`, `AwaitingEvidence`, `Rendering`,
/// `Ready` one step forward, gives up as `Unsupported` once evidence is
/// awaited or rendering began, or rejects a preview that has not ended. In
/// particular `Ready` is reached from `Accepted` in three accepted moves.
pub proof fn lemma_preview_lifecycle_moves(current: AttachmentPreviewStateV1, next: AttachmentPreviewStateV1)
    requires
        current != next,
        current != AttachmentPreviewStateV1::Unspecified,
        next != AttachmentPreviewStateV1::Unspecified,
    ensures
        spec_preview_transition(current, next) is Ok <==> {
            ||| current == Accepted && next == AwaitingEvidence
            ||| current == AwaitingEvidence && next == Rendering
            ||| current == Rendering && next == Ready
            ||| next == Unsupported && (current == AwaitingEvidence || current == Rendering)
            ||| next == Rejected && (current == Accepted || current == AwaitingEvidence || current == Rendering)
        },
        spec_preview_transition(current, next) is Ok ==> spec_preview_transition(current, next) == Ok::<
            AttachmentPreviewStateV1,
            AttachmentPreviewTransitionErrorV1,
        >(next),
        spec_preview_transition(current, next) is Err ==> spec_preview_transition(current, next) == Err::<
            AttachmentPreviewStateV1,
            AttachmentPreviewTransitionErrorV1,
        >(AttachmentPreviewTransitionErrorV1::InvalidTransition),
{
}

} // verus!
