//! The relationship graph vocabulary and the evidence recorded when an
//! organization link is confirmed by hand.

use vstd::prelude::*;
use crate::json::{entries_view, json_view, JsonValue, JsonView};
use crate::text::{chars_of, chars_start_with, slice_chars, string_from_chars};

verus! {

/// The kind of entity a relationship connects.
#[derive(Clone, Copy, Debug, PartialEq, Eq, Structural)]
pub enum RelationshipEntityKind {
    Persona,
    Organization,
    Project,
    Communication,
    Document,
    Task,
    Event,
    Decision,
    Obligation,
    Knowledge,
}

/// The kind of a node of the relationship graph.
#[derive(Clone, Copy, Debug, PartialEq, Eq, Structural)]
pub enum GraphNodeKind {
    Persona,
    Organization,
    Project,
    Message,
    Document,
    Task,
    Event,
    Decision,
    Obligation,
    Knowledge,
}

/// The review state of a relationship.
#[derive(Clone, Copy, Debug, PartialEq, Eq, Structural)]
pub enum RelationshipReviewState {
    Suggested,
    SystemAccepted,
    UserConfirmed,
    UserRejected,
}

/// The review state of a graph edge.
#[derive(Clone, Copy, Debug, PartialEq, Eq, Structural)]
pub enum GraphReviewState {
    Suggested,
    SystemAccepted,
    UserConfirmed,
    UserRejected,
}

/// The node kind of an entity kind; a communication is a message node.
pub open spec fn node_kind_of(kind: RelationshipEntityKind) -> GraphNodeKind {
    match kind {
        RelationshipEntityKind::Persona => GraphNodeKind::Persona,
        RelationshipEntityKind::Organization => GraphNodeKind::Organization,
        RelationshipEntityKind::Project => GraphNodeKind::Project,
        RelationshipEntityKind::Communication => GraphNodeKind::Message,
        RelationshipEntityKind::Document => GraphNodeKind::Document,
        RelationshipEntityKind::Task => GraphNodeKind::Task,
        RelationshipEntityKind::Event => GraphNodeKind::Event,
        RelationshipEntityKind::Decision => GraphNodeKind::Decision,
        RelationshipEntityKind::Obligation => GraphNodeKind::Obligation,
        RelationshipEntityKind::Knowledge => GraphNodeKind::Knowledge,
    }
}

/// The graph node kind of an entity kind.
pub fn graph_node_kind(entity_kind: RelationshipEntityKind) -> (kind: GraphNodeKind)
    ensures
        kind == node_kind_of(entity_kind),
{
    match entity_kind {
        RelationshipEntityKind::Persona => GraphNodeKind::Persona,
        RelationshipEntityKind::Organization => GraphNodeKind::Organization,
        RelationshipEntityKind::Project => GraphNodeKind::Project,
        RelationshipEntityKind::Communication => GraphNodeKind::Message,
        RelationshipEntityKind::Document => GraphNodeKind::Document,
        RelationshipEntityKind::Task => GraphNodeKind::Task,
        RelationshipEntityKind::Event => GraphNodeKind::Event,
        RelationshipEntityKind::Decision => GraphNodeKind::Decision,
        RelationshipEntityKind::Obligation => GraphNodeKind::Obligation,
        RelationshipEntityKind::Knowledge => GraphNodeKind::Knowledge,
    }
}

/// The graph review state of a relationship review state.
pub open spec fn graph_review_state_of(state: RelationshipReviewState) -> GraphReviewState {
    match state {
        RelationshipReviewState::Suggested => GraphReviewState::Suggested,
        RelationshipReviewState::SystemAccepted => GraphReviewState::SystemAccepted,
        RelationshipReviewState::UserConfirmed => GraphReviewState::UserConfirmed,
        RelationshipReviewState::UserRejected => GraphReviewState::UserRejected,
    }
}

/// The graph review state of a relationship review state.
pub fn graph_review_state(review_state: RelationshipReviewState) -> (state: GraphReviewState)
    ensures
        state == graph_review_state_of(review_state),
{
    match review_state {
        RelationshipReviewState::Suggested => GraphReviewState::Suggested,
        RelationshipReviewState::SystemAccepted => GraphReviewState::SystemAccepted,
        RelationshipReviewState::UserConfirmed => GraphReviewState::UserConfirmed,
        RelationshipReviewState::UserRejected => GraphReviewState::UserRejected,
    }
}

/// Law: different entity kinds map to different node kinds, and different
/// review states to different graph review states.
pub proof fn lemma_graph_mappings_are_injective(
    a: RelationshipEntityKind,
    b: RelationshipEntityKind,
    r: RelationshipReviewState,
    s: RelationshipReviewState,
)
    ensures
        node_kind_of(a) == node_kind_of(b) ==> a == b,
        graph_review_state_of(r) == graph_review_state_of(s) ==> r == s,
{
}

/// What a piece of relationship evidence points at.
#[derive(Clone, Copy, Debug, PartialEq, Eq, Structural)]
pub enum RelationshipEvidenceSourceKind {
    Observation,
    Organization,
}

/// A piece of evidence for a relationship.
#[derive(Debug)]
pub struct NewRelationshipEvidence {
    pub source_kind: RelationshipEvidenceSourceKind,
    pub source_id: String,
    pub excerpt: String,
    pub metadata: JsonValue,
}

/// Which compatibility table an organization link comes from.
#[derive(Clone, Copy, Debug, PartialEq, Eq, Structural)]
pub enum OrganizationLinkTable {
    /// `organization_contact_links`, whose member is a person.
    ContactLinks,
    /// `organization_persona_links`, whose member is a persona.
    PersonaLinks,
}

/// An organization link row of a compatibility table.
pub struct OrganizationLinkRecord {
    pub id: String,
    pub organization_id: String,
    pub member_id: String,
    pub source: String,
}

/// The evidence source of a manual link: the observation that its source
/// names after `observation:`, otherwise the organization.
pub open spec fn link_evidence_source(source: Seq<char>, organization_id: Seq<char>) -> (
    RelationshipEvidenceSourceKind,
    Seq<char>,
) {
    if 12 <= source.len() && source.subrange(0, 12) == "observation:"@ {
        (RelationshipEvidenceSourceKind::Observation, source.subrange(12, source.len() as int))
    } else {
        (RelationshipEvidenceSourceKind::Organization, organization_id)
    }
}

/// The excerpt of a link's evidence.
pub open spec fn link_excerpt(table: OrganizationLinkTable) -> Seq<char> {
    match table {
        OrganizationLinkTable::ContactLinks => "Persona is linked to organization through compatibility organization contact data."@,
        OrganizationLinkTable::PersonaLinks => "Persona is linked to organization through organization-persona compatibility data."@,
    }
}

/// The metadata of a link's evidence: the table, the record and both ends.
pub open spec fn link_metadata(table: OrganizationLinkTable, link: OrganizationLinkRecord) -> JsonView {
    JsonView::Object(
        seq![
            ("compatibility_record_id"@, JsonView::String(link.id@)),
            ("compatibility_table"@, JsonView::String(match table {
                OrganizationLinkTable::ContactLinks => "organization_contact_links"@,
                OrganizationLinkTable::PersonaLinks => "organization_persona_links"@,
            })),
            ("organization_id"@, JsonView::String(link.organization_id@)),
            (match table {
                OrganizationLinkTable::ContactLinks => "person_id"@,
                OrganizationLinkTable::PersonaLinks => "persona_id"@,
            }, JsonView::String(link.member_id@)),
        ],
    )
}

/// The excerpt text of a link's evidence.
pub fn relationship_excerpt(table: OrganizationLinkTable) -> (excerpt: String)
    ensures
        excerpt@ == link_excerpt(table),
{
    match table {
        OrganizationLinkTable::ContactLinks => "Persona is linked to organization through compatibility organization contact data.".to_owned(),
        OrganizationLinkTable::PersonaLinks => "Persona is linked to organization through organization-persona compatibility data.".to_owned(),
    }
}

/// The metadata of a link's evidence.
pub fn relationship_evidence_metadata(table: OrganizationLinkTable, link: &OrganizationLinkRecord) -> (metadata: JsonValue)
    ensures
        json_view(metadata) == link_metadata(table, *link),
{
    let table_name = match table {
        OrganizationLinkTable::ContactLinks => "organization_contact_links".to_owned(),
        OrganizationLinkTable::PersonaLinks => "organization_persona_links".to_owned(),
    };
    let member_key = match table {
        OrganizationLinkTable::ContactLinks => "person_id".to_owned(),
        OrganizationLinkTable::PersonaLinks => "persona_id".to_owned(),
    };
    let mut entries: Vec<(String, JsonValue)> = Vec::new();
    entries.push(("compatibility_record_id".to_owned(), JsonValue::String(link.id.clone())));
    entries.push(("compatibility_table".to_owned(), JsonValue::String(table_name)));
    entries.push(("organization_id".to_owned(), JsonValue::String(link.organization_id.clone())));
    entries.push((member_key, JsonValue::String(link.member_id.clone())));
    proof {
        crate::json::lemma_entries_view_len(entries@);
        crate::json::lemma_entries_view_index(entries@, 0);
        crate::json::lemma_entries_view_index(entries@, 1);
        crate::json::lemma_entries_view_index(entries@, 2);
        crate::json::lemma_entries_view_index(entries@, 3);
        let ghost expected = match link_metadata(table, *link) {
            JsonView::Object(es) => es,
            _ => seq![],
        };
        assert(entries_view(entries@)[0] == expected[0]);
        assert(entries_view(entries@)[1] == expected[1]);
        assert(entries_view(entries@)[2] == expected[2]);
        assert(entries_view(entries@)[3] == expected[3]);
        assert(entries_view(entries@) =~= expected);
    }
    let metadata = JsonValue::Object(entries);
    assert(json_view(metadata) == JsonView::Object(entries_view(entries@)));
    metadata
}

/// The evidence recorded when an organization link is confirmed by hand:
/// the observation its source names after `observation:`, or else the
/// organization, with the table's excerpt and the link's metadata.
pub fn manual_link_evidence(table: OrganizationLinkTable, link: &OrganizationLinkRecord) -> (evidence:
    NewRelationshipEvidence)
    ensures
        (evidence.source_kind, evidence.source_id@) == link_evidence_source(
            link.source@,
            link.organization_id@,
        ),
        evidence.excerpt@ == link_excerpt(table),
        json_view(evidence.metadata) == link_metadata(table, *link),
{
    let source = chars_of(link.source.as_str());
    proof {
        reveal_strlit("observation:");
    }
    let (source_kind, source_id) = if chars_start_with(&source, "observation:") {
        let rest = slice_chars(&source, 12, source.len());
        (RelationshipEvidenceSourceKind::Observation, string_from_chars(rest.as_slice()))
    } else {
        (RelationshipEvidenceSourceKind::Organization, link.organization_id.clone())
    };
    NewRelationshipEvidence {
        source_kind,
        source_id,
        excerpt: relationship_excerpt(table),
        metadata: relationship_evidence_metadata(table, link),
    }
}

/// The evidence of a manually confirmed organization contact link.
pub fn manual_contact_link_evidence(link: &OrganizationLinkRecord) -> (evidence:
    NewRelationshipEvidence)
    ensures
        (evidence.source_kind, evidence.source_id@) == link_evidence_source(
            link.source@,
            link.organization_id@,
        ),
        evidence.excerpt@ == link_excerpt(OrganizationLinkTable::ContactLinks),
        json_view(evidence.metadata) == link_metadata(OrganizationLinkTable::ContactLinks, *link),
{
    manual_link_evidence(OrganizationLinkTable::ContactLinks, link)
}

/// The evidence of a manually confirmed organization persona link.
pub fn manual_persona_link_evidence(link: &OrganizationLinkRecord) -> (evidence:
    NewRelationshipEvidence)
    ensures
        (evidence.source_kind, evidence.source_id@) == link_evidence_source(
            link.source@,
            link.organization_id@,
        ),
        evidence.excerpt@ == link_excerpt(OrganizationLinkTable::PersonaLinks),
        json_view(evidence.metadata) == link_metadata(OrganizationLinkTable::PersonaLinks, *link),
{
    manual_link_evidence(OrganizationLinkTable::PersonaLinks, link)
}

} // verus!
