//! The attachment-preview evidence join. A preview run needs three facts
//! about one attachment: the request, the scan candidate and the safety
//! verdict. They may arrive in any order; the join keeps the first fact of
//! each kind, refuses a different fact of a kind it already holds, and
//! yields a custody delegation intent once all three agree and the
//! attachment is safe.

use vstd::prelude::*;

verus! {

#[derive(Clone, Copy, Debug, PartialEq, Eq)]
pub struct AttachmentPreviewRequestFactV1 {
    pub run_id: [u8; 16],
    pub attachment_anchor_id: [u8; 16],
    pub logical_owner_id: [u8; 16],
}

#[derive(Clone, Copy, Debug, PartialEq, Eq)]
pub struct AttachmentPreviewScanCandidateFactV1 {
    pub attachment_anchor_id: [u8; 16],
    pub candidate_message_id: [u8; 16],
    pub candidate_envelope_sha256: [u8; 32],
}

#[derive(Clone, Copy, Debug, PartialEq, Eq)]
pub struct AttachmentPreviewSafetyFactV1 {
    pub attachment_anchor_id: [u8; 16],
    pub safety_message_id: [u8; 16],
    pub safety_evidence_id: [u8; 16],
    pub safe_for_delivery: bool,
}

#[derive(Clone, Copy, Debug, PartialEq, Eq)]
pub struct AttachmentPreviewCustodyDelegationIntentV1 {
    pub run_id: [u8; 16],
    pub attachment_anchor_id: [u8; 16],
    pub logical_owner_id: [u8; 16],
    pub candidate_message_id: [u8; 16],
    pub candidate_envelope_sha256: [u8; 32],
    pub safety_message_id: [u8; 16],
    pub safety_evidence_id: [u8; 16],
}

/// The facts gathered so far for one preview run.
#[derive(Clone, Copy, Debug, PartialEq, Eq)]
pub struct AttachmentPreviewEvidenceJoinV1 {
    request: Option<AttachmentPreviewRequestFactV1>,
    candidate: Option<AttachmentPreviewScanCandidateFactV1>,
    safety: Option<AttachmentPreviewSafetyFactV1>,
}

#[derive(Clone, Copy, Debug, PartialEq, Eq, Structural)]
pub enum AttachmentPreviewJoinErrorV1 {
    InvalidFact,
    Collision,
    NotSafe,
}

/// The slots of a join, as the contracts see them.
pub struct JoinSlots {
    pub request: Option<AttachmentPreviewRequestFactV1>,
    pub candidate: Option<AttachmentPreviewScanCandidateFactV1>,
    pub safety: Option<AttachmentPreviewSafetyFactV1>,
}

impl View for AttachmentPreviewEvidenceJoinV1 {
    type V = JoinSlots;

    closed spec fn view(&self) -> JoinSlots {
        JoinSlots { request: self.request, candidate: self.candidate, safety: self.safety }
    }
}

/// One observation handed to the join.
pub enum JoinObservation {
    Request(AttachmentPreviewRequestFactV1),
    Candidate(AttachmentPreviewScanCandidateFactV1),
    Safety(AttachmentPreviewSafetyFactV1),
}

/// An identifier is usable when one of its bytes is not zero.
pub open spec fn id_is_valid(value: [u8; 16]) -> bool {
    exists|i: int| 0 <= i < 16 && #[trigger] value@[i] != 0
}

/// A digest is usable when one of its bytes is not zero.
pub open spec fn digest_is_valid(value: [u8; 32]) -> bool {
    exists|i: int| 0 <= i < 32 && #[trigger] value@[i] != 0
}

pub open spec fn request_is_valid(fact: AttachmentPreviewRequestFactV1) -> bool {
    id_is_valid(fact.run_id) && id_is_valid(fact.attachment_anchor_id) && id_is_valid(
        fact.logical_owner_id,
    )
}

pub open spec fn candidate_is_valid(fact: AttachmentPreviewScanCandidateFactV1) -> bool {
    id_is_valid(fact.attachment_anchor_id) && id_is_valid(fact.candidate_message_id)
        && digest_is_valid(fact.candidate_envelope_sha256)
}

pub open spec fn safety_is_valid(fact: AttachmentPreviewSafetyFactV1) -> bool {
    id_is_valid(fact.attachment_anchor_id) && id_is_valid(fact.safety_message_id) && id_is_valid(
        fact.safety_evidence_id,
    )
}

/// Two request facts carry the same bytes.
pub open spec fn same_request(a: AttachmentPreviewRequestFactV1, b: AttachmentPreviewRequestFactV1) -> bool {
    &&& a.run_id@ == b.run_id@
    &&& a.attachment_anchor_id@ == b.attachment_anchor_id@
    &&& a.logical_owner_id@ == b.logical_owner_id@
}

/// Two candidate facts carry the same bytes.
pub open spec fn same_candidate(
    a: AttachmentPreviewScanCandidateFactV1,
    b: AttachmentPreviewScanCandidateFactV1,
) -> bool {
    &&& a.attachment_anchor_id@ == b.attachment_anchor_id@
    &&& a.candidate_message_id@ == b.candidate_message_id@
    &&& a.candidate_envelope_sha256@ == b.candidate_envelope_sha256@
}

/// Two safety facts carry the same bytes and verdict.
pub open spec fn same_safety(a: AttachmentPreviewSafetyFactV1, b: AttachmentPreviewSafetyFactV1) -> bool {
    &&& a.attachment_anchor_id@ == b.attachment_anchor_id@
    &&& a.safety_message_id@ == b.safety_message_id@
    &&& a.safety_evidence_id@ == b.safety_evidence_id@
    &&& a.safe_for_delivery == b.safe_for_delivery
}

/// Keeping a fact in a slot: an empty slot takes it, an equal fact is a
/// no-op, a different fact is a collision that leaves the slot as it was.
pub open spec fn fill_slot<T>(slot: Option<T>, value: T, same: spec_fn(T, T) -> bool) -> (
    Option<T>,
    Result<(), AttachmentPreviewJoinErrorV1>,
) {
    match slot {
        Some(current) => if same(current, value) {
            (slot, Ok(()))
        } else {
            (slot, Err(AttachmentPreviewJoinErrorV1::Collision))
        },
        None => (Some(value), Ok(())),
    }
}

/// The join after one observation, and what the observation returns.
pub open spec fn observe(join: JoinSlots, observation: JoinObservation) -> (JoinSlots, Result<
    (),
    AttachmentPreviewJoinErrorV1,
>) {
    match observation {
        JoinObservation::Request(fact) => if !request_is_valid(fact) {
            (join, Err(AttachmentPreviewJoinErrorV1::InvalidFact))
        } else {
            let (slot, result) = fill_slot(join.request, fact, |a, b| same_request(a, b));
            (JoinSlots { request: slot, ..join }, result)
        },
        JoinObservation::Candidate(fact) => if !candidate_is_valid(fact) {
            (join, Err(AttachmentPreviewJoinErrorV1::InvalidFact))
        } else {
            let (slot, result) = fill_slot(join.candidate, fact, |a, b| same_candidate(a, b));
            (JoinSlots { candidate: slot, ..join }, result)
        },
        JoinObservation::Safety(fact) => if !safety_is_valid(fact) {
            (join, Err(AttachmentPreviewJoinErrorV1::InvalidFact))
        } else {
            let (slot, result) = fill_slot(join.safety, fact, |a, b| same_safety(a, b));
            (JoinSlots { safety: slot, ..join }, result)
        },
    }
}

/// What `delegation_intent` returns for a join.
pub open spec fn intent_of(join: JoinSlots) -> Result<
    Option<AttachmentPreviewCustodyDelegationIntentV1>,
    AttachmentPreviewJoinErrorV1,
> {
    match (join.request, join.candidate, join.safety) {
        (Some(request), Some(candidate), Some(safety)) => {
            if request.attachment_anchor_id@ != candidate.attachment_anchor_id@
                || request.attachment_anchor_id@ != safety.attachment_anchor_id@ {
                Err(AttachmentPreviewJoinErrorV1::Collision)
            } else if !safety.safe_for_delivery {
                Err(AttachmentPreviewJoinErrorV1::NotSafe)
            } else {
                Ok(
                    Some(
                        AttachmentPreviewCustodyDelegationIntentV1 {
                            run_id: request.run_id,
                            attachment_anchor_id: request.attachment_anchor_id,
                            logical_owner_id: request.logical_owner_id,
                            candidate_message_id: candidate.candidate_message_id,
                            candidate_envelope_sha256: candidate.candidate_envelope_sha256,
                            safety_message_id: safety.safety_message_id,
                            safety_evidence_id: safety.safety_evidence_id,
                        },
                    ),
                )
            }
        },
        _ => Ok(None),
    }
}

impl AttachmentPreviewEvidenceJoinV1 {
    /// An empty join.
    pub fn new() -> (join: Self)
        ensures
            join@.request is None,
            join@.candidate is None,
            join@.safety is None,
    {
        AttachmentPreviewEvidenceJoinV1 { request: None, candidate: None, safety: None }
    }

    /// Observes the request fact.
    pub fn observe_request(&mut self, fact: AttachmentPreviewRequestFactV1) -> (result: Result<
        (),
        AttachmentPreviewJoinErrorV1,
    >)
        ensures
            (final(self)@, result) == observe(old(self)@, JoinObservation::Request(fact)),
    {
        validate_request(fact)?;
        replace_exact_request(&mut self.request, fact)
    }

    /// Observes the scan candidate fact.
    pub fn observe_candidate(
        &mut self,
        fact: AttachmentPreviewScanCandidateFactV1,
    ) -> (result: Result<(), AttachmentPreviewJoinErrorV1>)
        ensures
            (final(self)@, result) == observe(old(self)@, JoinObservation::Candidate(fact)),
    {
        validate_candidate(fact)?;
        replace_exact_candidate(&mut self.candidate, fact)
    }

    /// Observes the safety fact.
    pub fn observe_safety(&mut self, fact: AttachmentPreviewSafetyFactV1) -> (result: Result<
        (),
        AttachmentPreviewJoinErrorV1,
    >)
        ensures
            (final(self)@, result) == observe(old(self)@, JoinObservation::Safety(fact)),
    {
        validate_safety(fact)?;
        replace_exact_safety(&mut self.safety, fact)
    }

    /// The custody delegation intent: `None` until all three facts are in,
    /// `Collision` when they name different attachments, `NotSafe` when the
    /// safety verdict forbids delivery.
    pub fn delegation_intent(&self) -> (result: Result<
        Option<AttachmentPreviewCustodyDelegationIntentV1>,
        AttachmentPreviewJoinErrorV1,
    >)
        ensures
            result == intent_of(self@),
    {
        let (request, candidate, safety) = match (self.request, self.candidate, self.safety) {
            (Some(request), Some(candidate), Some(safety)) => (request, candidate, safety),
            _ => return Ok(None),
        };
        if !same_id(&request.attachment_anchor_id, &candidate.attachment_anchor_id)
            || !same_id(&request.attachment_anchor_id, &safety.attachment_anchor_id) {
            return Err(AttachmentPreviewJoinErrorV1::Collision);
        }
        if !safety.safe_for_delivery {
            return Err(AttachmentPreviewJoinErrorV1::NotSafe);
        }
        Ok(
            Some(
                AttachmentPreviewCustodyDelegationIntentV1 {
                    run_id: request.run_id,
                    attachment_anchor_id: request.attachment_anchor_id,
                    logical_owner_id: request.logical_owner_id,
                    candidate_message_id: candidate.candidate_message_id,
                    candidate_envelope_sha256: candidate.candidate_envelope_sha256,
                    safety_message_id: safety.safety_message_id,
                    safety_evidence_id: safety.safety_evidence_id,
                },
            ),
        )
    }
}

impl Default for AttachmentPreviewEvidenceJoinV1 {
    fn default() -> (join: Self)
        ensures
            join@.request is None,
            join@.candidate is None,
            join@.safety is None,
    {
        Self::new()
    }
}

fn replace_exact_request(
    slot: &mut Option<AttachmentPreviewRequestFactV1>,
    value: AttachmentPreviewRequestFactV1,
) -> (result: Result<(), AttachmentPreviewJoinErrorV1>)
    ensures
        (*final(slot), result) == fill_slot(*old(slot), value, |a, b| same_request(a, b)),
{
    match *slot {
        Some(current) => if !same_request_facts(&current, &value) {
            Err(AttachmentPreviewJoinErrorV1::Collision)
        } else {
            Ok(())
        },
        None => {
            *slot = Some(value);
            Ok(())
        },
    }
}

fn replace_exact_candidate(
    slot: &mut Option<AttachmentPreviewScanCandidateFactV1>,
    value: AttachmentPreviewScanCandidateFactV1,
) -> (result: Result<(), AttachmentPreviewJoinErrorV1>)
    ensures
        (*final(slot), result) == fill_slot(*old(slot), value, |a, b| same_candidate(a, b)),
{
    match *slot {
        Some(current) => if !same_candidate_facts(&current, &value) {
            Err(AttachmentPreviewJoinErrorV1::Collision)
        } else {
            Ok(())
        },
        None => {
            *slot = Some(value);
            Ok(())
        },
    }
}

fn replace_exact_safety(
    slot: &mut Option<AttachmentPreviewSafetyFactV1>,
    value: AttachmentPreviewSafetyFactV1,
) -> (result: Result<(), AttachmentPreviewJoinErrorV1>)
    ensures
        (*final(slot), result) == fill_slot(*old(slot), value, |a, b| same_safety(a, b)),
{
    match *slot {
        Some(current) => if !same_safety_facts(&current, &value) {
            Err(AttachmentPreviewJoinErrorV1::Collision)
        } else {
            Ok(())
        },
        None => {
            *slot = Some(value);
            Ok(())
        },
    }
}

fn validate_request(fact: AttachmentPreviewRequestFactV1) -> (result: Result<
    (),
    AttachmentPreviewJoinErrorV1,
>)
    ensures
        result is Ok <==> request_is_valid(fact),
        result is Err ==> result == Err::<(), _>(AttachmentPreviewJoinErrorV1::InvalidFact),
{
    valid_id(fact.run_id)?;
    valid_id(fact.attachment_anchor_id)?;
    valid_id(fact.logical_owner_id)
}

fn validate_candidate(fact: AttachmentPreviewScanCandidateFactV1) -> (result: Result<
    (),
    AttachmentPreviewJoinErrorV1,
>)
    ensures
        result is Ok <==> candidate_is_valid(fact),
        result is Err ==> result == Err::<(), _>(AttachmentPreviewJoinErrorV1::InvalidFact),
{
    valid_id(fact.attachment_anchor_id)?;
    valid_id(fact.candidate_message_id)?;
    valid_sha256(fact.candidate_envelope_sha256)
}

fn validate_safety(fact: AttachmentPreviewSafetyFactV1) -> (result: Result<
    (),
    AttachmentPreviewJoinErrorV1,
>)
    ensures
        result is Ok <==> safety_is_valid(fact),
        result is Err ==> result == Err::<(), _>(AttachmentPreviewJoinErrorV1::InvalidFact),
{
    valid_id(fact.attachment_anchor_id)?;
    valid_id(fact.safety_message_id)?;
    valid_id(fact.safety_evidence_id)
}

fn valid_id(value: [u8; 16]) -> (result: Result<(), AttachmentPreviewJoinErrorV1>)
    ensures
        result is Ok <==> id_is_valid(value),
        result is Err ==> result == Err::<(), _>(AttachmentPreviewJoinErrorV1::InvalidFact),
{
    let mut i: usize = 0;
    while i < 16
        invariant
            i <= 16,
            forall|j: int| 0 <= j < i ==> #[trigger] value@[j] == 0,
        decreases 16 - i,
    {
        if value[i] != 0 {
            return Ok(());
        }
        i = i + 1;
    }
    Err(AttachmentPreviewJoinErrorV1::InvalidFact)
}

fn valid_sha256(value: [u8; 32]) -> (result: Result<(), AttachmentPreviewJoinErrorV1>)
    ensures
        result is Ok <==> digest_is_valid(value),
        result is Err ==> result == Err::<(), _>(AttachmentPreviewJoinErrorV1::InvalidFact),
{
    let mut i: usize = 0;
    while i < 32
        invariant
            i <= 32,
            forall|j: int| 0 <= j < i ==> #[trigger] value@[j] == 0,
        decreases 32 - i,
    {
        if value[i] != 0 {
            return Ok(());
        }
        i = i + 1;
    }
    Err(AttachmentPreviewJoinErrorV1::InvalidFact)
}

fn same_request_facts(a: &AttachmentPreviewRequestFactV1, b: &AttachmentPreviewRequestFactV1) -> (same: bool)
    ensures
        same == same_request(*a, *b),
{
    same_id(&a.run_id, &b.run_id) && same_id(&a.attachment_anchor_id, &b.attachment_anchor_id)
        && same_id(&a.logical_owner_id, &b.logical_owner_id)
}

fn same_candidate_facts(
    a: &AttachmentPreviewScanCandidateFactV1,
    b: &AttachmentPreviewScanCandidateFactV1,
) -> (same: bool)
    ensures
        same == same_candidate(*a, *b),
{
    same_id(&a.attachment_anchor_id, &b.attachment_anchor_id) && same_id(
        &a.candidate_message_id,
        &b.candidate_message_id,
    ) && same_digest(&a.candidate_envelope_sha256, &b.candidate_envelope_sha256)
}

fn same_safety_facts(a: &AttachmentPreviewSafetyFactV1, b: &AttachmentPreviewSafetyFactV1) -> (same: bool)
    ensures
        same == same_safety(*a, *b),
{
    same_id(&a.attachment_anchor_id, &b.attachment_anchor_id) && same_id(
        &a.safety_message_id,
        &b.safety_message_id,
    ) && same_id(&a.safety_evidence_id, &b.safety_evidence_id) && a.safe_for_delivery
        == b.safe_for_delivery
}

/// Whether two identifiers hold the same bytes.
fn same_id(a: &[u8; 16], b: &[u8; 16]) -> (same: bool)
    ensures
        same == (a@ == b@),
{
    let mut i: usize = 0;
    while i < 16
        invariant
            i <= 16,
            a@.len() == 16,
            b@.len() == 16,
            forall|j: int| 0 <= j < i ==> a@[j] == b@[j],
        decreases 16 - i,
    {
        if a[i] != b[i] {
            return false;
        }
        i = i + 1;
    }
    assert(a@ =~= b@);
    true
}

/// Whether two digests hold the same bytes.
fn same_digest(a: &[u8; 32], b: &[u8; 32]) -> (same: bool)
    ensures
        same == (a@ == b@),
{
    let mut i: usize = 0;
    while i < 32
        invariant
            i <= 32,
            a@.len() == 32,
            b@.len() == 32,
            forall|j: int| 0 <= j < i ==> a@[j] == b@[j],
        decreases 32 - i,
    {
        if a[i] != b[i] {
            return false;
        }
        i = i + 1;
    }
    assert(a@ =~= b@);
    true
}

/// The join after an observation.
pub open spec fn after(join: JoinSlots, observation: JoinObservation) -> JoinSlots {
    observe(join, observation).0
}

/// The kind of an observation: 0 request, 1 candidate, 2 safety.
pub open spec fn kind_of(observation: JoinObservation) -> int {
    match observation {
        JoinObservation::Request(_) => 0,
        JoinObservation::Candidate(_) => 1,
        JoinObservation::Safety(_) => 2,
    }
}

/// Law: observations of different kinds commute. Either order leaves the
/// same join, and each observation returns what it returns on its own.
pub proof fn lemma_observations_commute(join: JoinSlots, a: JoinObservation, b: JoinObservation)
    requires
        kind_of(a) != kind_of(b),
    ensures
        after(after(join, a), b) == after(after(join, b), a),
        observe(after(join, a), b).1 == observe(join, b).1,
        observe(after(join, b), a).1 == observe(join, a).1,
{
}

/// Law: the join does not depend on the order in which one request, one
/// candidate and one safety fact arrive: all six orders give the same join,
/// and each fact is answered as it would be first.
pub proof fn lemma_join_is_order_independent(
    join: JoinSlots,
    request: AttachmentPreviewRequestFactV1,
    candidate: AttachmentPreviewScanCandidateFactV1,
    safety: AttachmentPreviewSafetyFactV1,
)
    ensures
        ({
            let r = JoinObservation::Request(request);
            let c = JoinObservation::Candidate(candidate);
            let s = JoinObservation::Safety(safety);
            let rcs = after(after(after(join, r), c), s);
            &&& after(after(after(join, r), s), c) == rcs
            &&& after(after(after(join, c), r), s) == rcs
            &&& after(after(after(join, c), s), r) == rcs
            &&& after(after(after(join, s), r), c) == rcs
            &&& after(after(after(join, s), c), r) == rcs
            &&& intent_of(after(after(after(join, s), c), r)) == intent_of(rcs)
        }),
{
}

/// Law: observing a fact a second time changes nothing and is answered as
/// the first time was, once the first time succeeded.
pub proof fn lemma_observation_is_idempotent(join: JoinSlots, a: JoinObservation)
    requires
        observe(join, a).1 is Ok,
    ensures
        after(after(join, a), a) == after(join, a),
        observe(after(join, a), a).1 is Ok,
{
}

/// Law: a fact the join holds is never dropped or replaced; a different
/// fact of the same kind fails closed as `Collision` or `InvalidFact` and
/// leaves the join as it was.
pub proof fn lemma_held_facts_are_kept(join: JoinSlots, a: JoinObservation)
    ensures
        join.request is Some ==> after(join, a).request == join.request,
        join.candidate is Some ==> after(join, a).candidate == join.candidate,
        join.safety is Some ==> after(join, a).safety == join.safety,
        observe(join, a).1 is Err ==> after(join, a) == join,
{
}

/// Law: a delegation intent is issued only for three facts that name the
/// same attachment and a verdict that allows delivery.
pub proof fn lemma_intent_requires_agreement_and_safety(join: JoinSlots)
    ensures
        intent_of(join) matches Ok(Some(intent)) ==> {
            &&& join.request is Some && join.candidate is Some && join.safety is Some
            &&& join.request->0.attachment_anchor_id@ == join.candidate->0.attachment_anchor_id@
            &&& join.request->0.attachment_anchor_id@ == join.safety->0.attachment_anchor_id@
            &&& join.safety->0.safe_for_delivery
            &&& intent.attachment_anchor_id == join.request->0.attachment_anchor_id
        },
{
}

/// Law: a held request fact accepts only itself. Observing a valid request
/// fact succeeds exactly when it equals the held one in every field, and is
/// a `Collision` otherwise.
pub proof fn lemma_held_request_accepts_only_itself(
    join: JoinSlots,
    held: AttachmentPreviewRequestFactV1,
    f: AttachmentPreviewRequestFactV1,
)
    requires
        join.request == Some(held),
        request_is_valid(f),
    ensures
        observe(join, JoinObservation::Request(f)).1 is Ok <==> f == held,
        f != held ==> observe(join, JoinObservation::Request(f)).1 == Err::<(), AttachmentPreviewJoinErrorV1>(
            AttachmentPreviewJoinErrorV1::Collision,
        ),
{
    if f.run_id@ == held.run_id@ && f.attachment_anchor_id@ == held.attachment_anchor_id@
        && f.logical_owner_id@ == held.logical_owner_id@ {
        assert(f.run_id =~= held.run_id);
        assert(f.attachment_anchor_id =~= held.attachment_anchor_id);
        assert(f.logical_owner_id =~= held.logical_owner_id);
    }
}

/// Law: a held scan candidate accepts only itself, as for requests.
pub proof fn lemma_held_candidate_accepts_only_itself(
    join: JoinSlots,
    held: AttachmentPreviewScanCandidateFactV1,
    f: AttachmentPreviewScanCandidateFactV1,
)
    requires
        join.candidate == Some(held),
        candidate_is_valid(f),
    ensures
        observe(join, JoinObservation::Candidate(f)).1 is Ok <==> f == held,
        f != held ==> observe(join, JoinObservation::Candidate(f)).1 == Err::<(), AttachmentPreviewJoinErrorV1>(
            AttachmentPreviewJoinErrorV1::Collision,
        ),
{
    if f.attachment_anchor_id@ == held.attachment_anchor_id@ && f.candidate_message_id@
        == held.candidate_message_id@ && f.candidate_envelope_sha256@ == held.candidate_envelope_sha256@ {
        assert(f.attachment_anchor_id =~= held.attachment_anchor_id);
        assert(f.candidate_message_id =~= held.candidate_message_id);
        assert(f.candidate_envelope_sha256 =~= held.candidate_envelope_sha256);
    }
}

/// Law: a held safety fact accepts only itself: a fact that differs in any
/// field, the delivery verdict included, is a `Collision`.
pub proof fn lemma_held_safety_accepts_only_itself(
    join: JoinSlots,
    held: AttachmentPreviewSafetyFactV1,
    f: AttachmentPreviewSafetyFactV1,
)
    requires
        join.safety == Some(held),
        safety_is_valid(f),
    ensures
        observe(join, JoinObservation::Safety(f)).1 is Ok <==> f == held,
        f != held ==> observe(join, JoinObservation::Safety(f)).1 == Err::<(), AttachmentPreviewJoinErrorV1>(
            AttachmentPreviewJoinErrorV1::Collision,
        ),
{
    if f.attachment_anchor_id@ == held.attachment_anchor_id@ && f.safety_message_id@ == held.safety_message_id@
        && f.safety_evidence_id@ == held.safety_evidence_id@ {
        assert(f.attachment_anchor_id =~= held.attachment_anchor_id);
        assert(f.safety_message_id =~= held.safety_message_id);
        assert(f.safety_evidence_id =~= held.safety_evidence_id);
    }
}

} // verus!
