//! The documents the WhatsApp fixture ingest writes next to its rows: the
//! projection of a status, the metadata of a conversation participant, and
//! the metadata patch and version provenance of an edited message.

use vstd::prelude::*;
use crate::fixture_ids::status_message;
use crate::json::{
    clone_json, entries_view, entry_insert, entry_lookup, lemma_insert_then_lookup, lookup, push_entry, insert_entry, json_view, merged_entries, merged_object_metadata,
    JsonValue, JsonView,
};
use crate::stable_ids::stable_id;
use crate::text::{append_text, chars_of, string_from_chars};
use crate::whatsapp_vocab::CommunicationFixtureIngestError;

verus! {

/// A text as a JSON string.
pub open spec fn text_view(t: Seq<char>) -> JsonView {
    JsonView::String(t)
}

/// A text as a JSON string, or `null` when there is none.
pub open spec fn optional_text_view(t: Option<&str>) -> JsonView {
    match t {
        Some(s) => JsonView::String(s@),
        None => JsonView::Null,
    }
}

fn optional_text_value(t: Option<&str>) -> (v: JsonValue)
    ensures
        json_view(v) == optional_text_view(t),
{
    match t {
        Some(s) => JsonValue::String(s.to_owned()),
        None => JsonValue::Null,
    }
}

// ---------------------------------------------------------------- statuses

/// What a status observation says of its author, each value in the JSON
/// form the provider observation carries it in.
pub struct StatusAuthorObservation {
    pub identity_kind: JsonValue,
    pub address: JsonValue,
    pub push_name: JsonValue,
    pub business_profile: JsonValue,
    pub profile_photo_ref: JsonValue,
}

/// The message that a WhatsApp status is projected as. The raw record, the
/// time and the channel kind are the caller's.
pub struct StatusMessageProjection {
    pub message_id: String,
    pub subject: String,
    pub sender: String,
    pub recipients: Vec<String>,
    pub body_text: String,
    pub conversation_id: String,
    pub sender_display_name: String,
    pub delivery_state: String,
    pub message_metadata: JsonValue,
}

/// The metadata of a projected status.
pub open spec fn status_metadata_of(
    provider_status_id: Seq<char>,
    accepted_event_id: Seq<char>,
    author_identity_id: Option<&str>,
    author: StatusAuthorObservation,
) -> JsonView {
    JsonView::Object(
        seq![
            ("communication_object_type"@, text_view("status"@)),
            ("provider_status_id"@, text_view(provider_status_id)),
            ("accepted_signal_event_id"@, text_view(accepted_event_id)),
            ("status_author_identity_id"@, optional_text_view(author_identity_id)),
            ("status_author_identity_kind"@, json_view(author.identity_kind)),
            ("status_author_address"@, json_view(author.address)),
            ("status_author_push_name"@, json_view(author.push_name)),
            ("status_author_business_profile"@, json_view(author.business_profile)),
            ("status_author_profile_photo_ref"@, json_view(author.profile_photo_ref)),
        ],
    )
}

/// The message a status of `account_id` is projected as: a `WhatsApp
/// Status` message from its sender to the account's status feed, received,
/// under the status's stable message id.
pub fn whatsapp_status_message_projection(
    account_id: &str,
    provider_status_id: &str,
    sender_id: &str,
    sender_display_name: &str,
    text: &str,
    accepted_event_id: &str,
    author_identity_id: Option<&str>,
    author: &StatusAuthorObservation,
    feed_conversation_id: &str,
) -> (p: StatusMessageProjection)
    ensures
        p.message_id@ == stable_id("message:v5:whatsapp_web"@, seq![account_id@, provider_status_id@]),
        p.subject@ == "WhatsApp Status"@,
        p.sender@ == sender_id@,
        p.recipients@.len() == 1,
        p.recipients@[0]@ == feed_conversation_id@,
        p.body_text@ == text@,
        p.conversation_id@ == feed_conversation_id@,
        p.sender_display_name@ == sender_display_name@,
        p.delivery_state@ == "received"@,
        json_view(p.message_metadata) == status_metadata_of(
            provider_status_id@,
            accepted_event_id@,
            author_identity_id,
            *author,
        ),
{
    let mut entries: Vec<(String, JsonValue)> = Vec::new();
    push_entry(&mut entries, "communication_object_type", JsonValue::String("status".to_owned()));
    push_entry(&mut entries, "provider_status_id", JsonValue::String(provider_status_id.to_owned()));
    push_entry(&mut entries, "accepted_signal_event_id", JsonValue::String(accepted_event_id.to_owned()));
    push_entry(&mut entries, "status_author_identity_id", optional_text_value(author_identity_id));
    push_entry(&mut entries, "status_author_identity_kind", clone_json(&author.identity_kind));
    push_entry(&mut entries, "status_author_address", clone_json(&author.address));
    push_entry(&mut entries, "status_author_push_name", clone_json(&author.push_name));
    push_entry(&mut entries, "status_author_business_profile", clone_json(&author.business_profile));
    push_entry(&mut entries, "status_author_profile_photo_ref", clone_json(&author.profile_photo_ref));
    proof {
        reveal_strlit("status");
    }
    assert(entries_view(entries@) =~= seq![
        ("communication_object_type"@, text_view("status"@)),
        ("provider_status_id"@, text_view(provider_status_id@)),
        ("accepted_signal_event_id"@, text_view(accepted_event_id@)),
        ("status_author_identity_id"@, optional_text_view(author_identity_id)),
        ("status_author_identity_kind"@, json_view(author.identity_kind)),
        ("status_author_address"@, json_view(author.address)),
        ("status_author_push_name"@, json_view(author.push_name)),
        ("status_author_business_profile"@, json_view(author.business_profile)),
        ("status_author_profile_photo_ref"@, json_view(author.profile_photo_ref)),
    ]);
    let mut recipients: Vec<String> = Vec::new();
    recipients.push(feed_conversation_id.to_owned());
    StatusMessageProjection {
        message_id: status_message(account_id, provider_status_id),
        subject: "WhatsApp Status".to_owned(),
        sender: sender_id.to_owned(),
        recipients,
        body_text: text.to_owned(),
        conversation_id: feed_conversation_id.to_owned(),
        sender_display_name: sender_display_name.to_owned(),
        delivery_state: "received".to_owned(),
        message_metadata: JsonValue::Object(entries),
    }
}

// ------------------------------------------------------------ participants

/// What an observation says of a conversation participant. The role and
/// status are texts; the other values are in the JSON form the provider
/// observation carries them in, `observed_at` included.
pub struct ParticipantObservation {
    pub role: String,
    pub status: String,
    pub push_name: JsonValue,
    pub business_profile: JsonValue,
    pub profile_photo_ref: JsonValue,
    pub is_self: bool,
    pub is_admin: bool,
    pub is_owner: bool,
    pub observed_at: JsonValue,
}

/// The metadata entries every participant row carries.
pub open spec fn participant_base_entries(
    provider_kind: Seq<char>,
    provider_member_id: Seq<char>,
    obs: ParticipantObservation,
    raw_record_id: Seq<char>,
    accepted_event_id: Seq<char>,
) -> Seq<(Seq<char>, JsonView)> {
    seq![
        ("provider"@, text_view(provider_kind)),
        ("provider_member_id"@, text_view(provider_member_id)),
        ("push_name"@, json_view(obs.push_name)),
        ("business_profile"@, json_view(obs.business_profile)),
        ("profile_photo_ref"@, json_view(obs.profile_photo_ref)),
        ("status"@, text_view(obs.status@)),
        ("is_self"@, JsonView::Bool(obs.is_self)),
        ("is_admin"@, JsonView::Bool(obs.is_admin)),
        ("is_owner"@, JsonView::Bool(obs.is_owner)),
        ("role_observed_at"@, json_view(obs.observed_at)),
        ("status_observed_at"@, json_view(obs.observed_at)),
        ("last_membership_observed_at"@, json_view(obs.observed_at)),
        ("raw_record_id"@, text_view(raw_record_id)),
        ("accepted_signal_event_id"@, text_view(accepted_event_id)),
    ]
}

/// Whether a previous value is known and differs from the observed one.
pub open spec fn changed_from(previous: Option<&str>, observed: Seq<char>) -> bool {
    match previous {
        Some(p) => p@ != observed,
        None => false,
    }
}

/// `entries` with the previous value under `previous_key` when it is known,
/// and, when it changed, the observation time under `changed_at_key` and
/// `true` under `changed_key`.
pub open spec fn with_change(
    entries: Seq<(Seq<char>, JsonView)>,
    previous: Option<&str>,
    observed: Seq<char>,
    observed_at: JsonView,
    previous_key: Seq<char>,
    changed_at_key: Seq<char>,
    changed_key: Seq<char>,
) -> Seq<(Seq<char>, JsonView)> {
    let with_previous = match previous {
        Some(p) => entry_insert(entries, previous_key, text_view(p@)),
        None => entries,
    };
    if changed_from(previous, observed) {
        entry_insert(entry_insert(with_previous, changed_at_key, observed_at), changed_key, JsonView::Bool(true))
    } else {
        with_previous
    }
}

/// The metadata of a participant row: the observation, then the previous
/// role and status when the row had them, with the change marks of a role
/// or membership status that changed.
pub open spec fn participant_metadata_of(
    provider_kind: Seq<char>,
    provider_member_id: Seq<char>,
    obs: ParticipantObservation,
    previous_role: Option<&str>,
    previous_status: Option<&str>,
    raw_record_id: Seq<char>,
    accepted_event_id: Seq<char>,
) -> JsonView {
    let base = participant_base_entries(provider_kind, provider_member_id, obs, raw_record_id, accepted_event_id);
    let with_role = with_change(
        base,
        previous_role,
        obs.role@,
        json_view(obs.observed_at),
        "previous_role"@,
        "last_role_change_at"@,
        "role_changed"@,
    );
    JsonView::Object(
        with_change(
            with_role,
            previous_status,
            obs.status@,
            json_view(obs.observed_at),
            "previous_status"@,
            "last_membership_change_at"@,
            "membership_changed"@,
        ),
    )
}

proof fn lemma_with_change_lookup(
    entries: Seq<(Seq<char>, JsonView)>,
    previous: Option<&str>,
    observed: Seq<char>,
    observed_at: JsonView,
    previous_key: Seq<char>,
    changed_at_key: Seq<char>,
    changed_key: Seq<char>,
    other: Seq<char>,
)
    requires
        changed_key != previous_key,
        changed_key != changed_at_key,
        other != previous_key,
        other != changed_at_key,
        other != changed_key,
    ensures
        entry_lookup(with_change(entries, previous, observed, observed_at, previous_key, changed_at_key, changed_key), changed_key)
            == if changed_from(previous, observed) {
            Some(JsonView::Bool(true))
        } else {
            entry_lookup(entries, changed_key)
        },
        entry_lookup(with_change(entries, previous, observed, observed_at, previous_key, changed_at_key, changed_key), other)
            == entry_lookup(entries, other),
{
    match previous {
        Some(p) => {
            let e1 = entry_insert(entries, previous_key, text_view(p@));
            lemma_insert_then_lookup(entries, previous_key, text_view(p@), changed_key);
            lemma_insert_then_lookup(entries, previous_key, text_view(p@), other);
            if changed_from(previous, observed) {
                let e2 = entry_insert(e1, changed_at_key, observed_at);
                lemma_insert_then_lookup(e1, changed_at_key, observed_at, other);
                lemma_insert_then_lookup(e2, changed_key, JsonView::Bool(true), other);
                lemma_insert_then_lookup(e2, changed_key, JsonView::Bool(true), changed_key);
            }
        },
        None => {},
    }
}

/// A participant's metadata marks a changed role, and a changed membership
/// status, exactly when the row had a previous value that differs from the
/// observed one.
pub proof fn lemma_change_marks_follow_changes(
    provider_kind: Seq<char>,
    provider_member_id: Seq<char>,
    obs: ParticipantObservation,
    previous_role: Option<&str>,
    previous_status: Option<&str>,
    raw_record_id: Seq<char>,
    accepted_event_id: Seq<char>,
)
    ensures
        lookup(
            participant_metadata_of(
                provider_kind,
                provider_member_id,
                obs,
                previous_role,
                previous_status,
                raw_record_id,
                accepted_event_id,
            ),
            "role_changed"@,
        ) == if changed_from(previous_role, obs.role@) {
            Some(JsonView::Bool(true))
        } else {
            None
        },
        lookup(
            participant_metadata_of(
                provider_kind,
                provider_member_id,
                obs,
                previous_role,
                previous_status,
                raw_record_id,
                accepted_event_id,
            ),
            "membership_changed"@,
        ) == if changed_from(previous_status, obs.status@) {
            Some(JsonView::Bool(true))
        } else {
            None
        },
{
    reveal_strlit("provider");
    reveal_strlit("provider_member_id");
    reveal_strlit("push_name");
    reveal_strlit("business_profile");
    reveal_strlit("profile_photo_ref");
    reveal_strlit("status");
    reveal_strlit("is_self");
    reveal_strlit("is_admin");
    reveal_strlit("is_owner");
    reveal_strlit("role_observed_at");
    reveal_strlit("status_observed_at");
    reveal_strlit("last_membership_observed_at");
    reveal_strlit("raw_record_id");
    reveal_strlit("accepted_signal_event_id");
    reveal_strlit("previous_role");
    reveal_strlit("last_role_change_at");
    reveal_strlit("role_changed");
    reveal_strlit("previous_status");
    reveal_strlit("last_membership_change_at");
    reveal_strlit("membership_changed");
    assert("role_changed"@.len() == 12);
    assert("membership_changed"@.len() == 18);
    assert("previous_role"@.len() == 13);
    assert("last_role_change_at"@.len() == 19);
    assert("previous_status"@.len() == 15);
    assert("last_membership_change_at"@.len() == 25);
    assert("membership_changed"@[0] == 'm');
    assert("provider_member_id"@[0] == 'p');
    assert("status_observed_at"@[0] == 's');
    let base = participant_base_entries(provider_kind, provider_member_id, obs, raw_record_id, accepted_event_id);
    assert(entry_lookup(base, "role_changed"@) is None) by {
        reveal_with_fuel(entry_lookup, 15);
    }
    assert(entry_lookup(base, "membership_changed"@) is None) by {
        reveal_with_fuel(entry_lookup, 15);
    }
    let at = json_view(obs.observed_at);
    lemma_with_change_lookup(
        base,
        previous_role,
        obs.role@,
        at,
        "previous_role"@,
        "last_role_change_at"@,
        "role_changed"@,
        "membership_changed"@,
    );
    let with_role = with_change(
        base,
        previous_role,
        obs.role@,
        at,
        "previous_role"@,
        "last_role_change_at"@,
        "role_changed"@,
    );
    lemma_with_change_lookup(
        with_role,
        previous_status,
        obs.status@,
        at,
        "previous_status"@,
        "last_membership_change_at"@,
        "membership_changed"@,
        "role_changed"@,
    );
}

/// Adds the previous value and, when it changed, the change marks.
fn add_change(
    entries: &mut Vec<(String, JsonValue)>,
    previous: Option<&str>,
    observed: &str,
    observed_at: &JsonValue,
    previous_key: &str,
    changed_at_key: &str,
    changed_key: &str,
)
    ensures
        entries_view(final(entries)@) == with_change(
            entries_view(old(entries)@),
            previous,
            observed@,
            json_view(*observed_at),
            previous_key@,
            changed_at_key@,
            changed_key@,
        ),
{
    match previous {
        Some(p) => {
            insert_entry(entries, previous_key.to_owned(), JsonValue::String(p.to_owned()));
            if !crate::text::text_equal(p, observed) {
                insert_entry(entries, changed_at_key.to_owned(), clone_json(observed_at));
                insert_entry(entries, changed_key.to_owned(), JsonValue::Bool(true));
            }
        },
        None => {},
    }
}

/// The metadata of a conversation participant row, from the observation and
/// the row's previous role and membership status.
pub fn whatsapp_participant_metadata(
    provider_kind: &str,
    provider_member_id: &str,
    obs: &ParticipantObservation,
    previous_role: Option<&str>,
    previous_status: Option<&str>,
    raw_record_id: &str,
    accepted_event_id: &str,
) -> (m: JsonValue)
    ensures
        json_view(m) == participant_metadata_of(
            provider_kind@,
            provider_member_id@,
            *obs,
            previous_role,
            previous_status,
            raw_record_id@,
            accepted_event_id@,
        ),
{
    let mut entries: Vec<(String, JsonValue)> = Vec::new();
    push_entry(&mut entries, "provider", JsonValue::String(provider_kind.to_owned()));
    push_entry(&mut entries, "provider_member_id", JsonValue::String(provider_member_id.to_owned()));
    push_entry(&mut entries, "push_name", clone_json(&obs.push_name));
    push_entry(&mut entries, "business_profile", clone_json(&obs.business_profile));
    push_entry(&mut entries, "profile_photo_ref", clone_json(&obs.profile_photo_ref));
    push_entry(&mut entries, "status", JsonValue::String(obs.status.clone()));
    push_entry(&mut entries, "is_self", JsonValue::Bool(obs.is_self));
    push_entry(&mut entries, "is_admin", JsonValue::Bool(obs.is_admin));
    push_entry(&mut entries, "is_owner", JsonValue::Bool(obs.is_owner));
    push_entry(&mut entries, "role_observed_at", clone_json(&obs.observed_at));
    push_entry(&mut entries, "status_observed_at", clone_json(&obs.observed_at));
    push_entry(&mut entries, "last_membership_observed_at", clone_json(&obs.observed_at));
    push_entry(&mut entries, "raw_record_id", JsonValue::String(raw_record_id.to_owned()));
    push_entry(&mut entries, "accepted_signal_event_id", JsonValue::String(accepted_event_id.to_owned()));
    assert(entries_view(entries@) =~= participant_base_entries(
        provider_kind@,
        provider_member_id@,
        *obs,
        raw_record_id@,
        accepted_event_id@,
    ));
    add_change(
        &mut entries,
        previous_role,
        obs.role.as_str(),
        &obs.observed_at,
        "previous_role",
        "last_role_change_at",
        "role_changed",
    );
    add_change(
        &mut entries,
        previous_status,
        obs.status.as_str(),
        &obs.observed_at,
        "previous_status",
        "last_membership_change_at",
        "membership_changed",
    );
    JsonValue::Object(entries)
}

/// The membership status a participant row had: the `status` text of its
/// metadata, when there is one.
pub fn previous_participant_status(metadata: Option<&JsonValue>) -> (status: Option<String>)
    ensures
        match metadata {
            Some(m) => match crate::json::as_str_view(crate::json::lookup(json_view(*m), "status"@)) {
                Some(t) => status matches Some(s) && s@ == t,
                None => status is None,
            },
            None => status is None,
        },
{
    match metadata {
        Some(m) => match crate::json::json_as_str(crate::json::json_get(m, "status")) {
            Some(s) => Some(s.to_owned()),
            None => None,
        },
        None => None,
    }
}

// ------------------------------------------------------------------ edits

/// The patch an edit merges into the message metadata.
pub open spec fn edit_patch_of(provider_chat_id: Seq<char>, accepted_event_id: Seq<char>) -> Seq<
    (Seq<char>, JsonView),
> {
    seq![
        ("edited"@, JsonView::Bool(true)),
        ("provider_chat_id"@, text_view(provider_chat_id)),
        ("accepted_signal_event_id"@, text_view(accepted_event_id)),
    ]
}

/// The provenance of a message version.
pub open spec fn version_provenance_of(
    provider_kind: Seq<char>,
    raw_record_id: Seq<char>,
    accepted_event_id: Seq<char>,
) -> Seq<(Seq<char>, JsonView)> {
    seq![
        ("provider"@, text_view(provider_kind)),
        ("raw_record_id"@, text_view(raw_record_id)),
        ("accepted_signal_event_id"@, text_view(accepted_event_id)),
    ]
}

/// The metadata patch of an edit.
fn edit_patch_value(provider_chat_id: &str, accepted_event_id: &str) -> (patch: JsonValue)
    ensures
        json_view(patch) == JsonView::Object(edit_patch_of(provider_chat_id@, accepted_event_id@)),
{
    let mut patch: Vec<(String, JsonValue)> = Vec::new();
    push_entry(&mut patch, "edited", JsonValue::Bool(true));
    push_entry(&mut patch, "provider_chat_id", JsonValue::String(provider_chat_id.to_owned()));
    push_entry(&mut patch, "accepted_signal_event_id", JsonValue::String(accepted_event_id.to_owned()));
    assert(entries_view(patch@) =~= edit_patch_of(provider_chat_id@, accepted_event_id@));
    JsonValue::Object(patch)
}

/// The metadata patch of an edit and the provenance of the version it
/// records.
pub fn whatsapp_edit_patch(
    provider_chat_id: &str,
    accepted_event_id: &str,
    provider_kind: &str,
    raw_record_id: &str,
) -> (p: (JsonValue, JsonValue))
    ensures
        json_view(p.0) == JsonView::Object(edit_patch_of(provider_chat_id@, accepted_event_id@)),
        json_view(p.1) == JsonView::Object(
            version_provenance_of(provider_kind@, raw_record_id@, accepted_event_id@),
        ),
{
    let patch = edit_patch_value(provider_chat_id, accepted_event_id);
    let mut provenance: Vec<(String, JsonValue)> = Vec::new();
    push_entry(&mut provenance, "provider", JsonValue::String(provider_kind.to_owned()));
    push_entry(&mut provenance, "raw_record_id", JsonValue::String(raw_record_id.to_owned()));
    push_entry(&mut provenance, "accepted_signal_event_id", JsonValue::String(accepted_event_id.to_owned()));
    assert(entries_view(provenance@) =~= version_provenance_of(provider_kind@, raw_record_id@, accepted_event_id@));
    (patch, JsonValue::Object(provenance))
}

/// The refusal of an update whose target message `provider_message_id`
/// `reason` (`is not projected`, or `disappeared during projection`).
pub open spec fn update_refusal(provider_message_id: Seq<char>, reason: Seq<char>) -> Seq<char> {
    "whatsapp message update target `"@ + provider_message_id + "` "@ + reason
}

fn update_refused(provider_message_id: &str, reason: &str) -> (e: CommunicationFixtureIngestError)
    ensures
        e matches CommunicationFixtureIngestError::SignalControlBlocked(m) && m@ == update_refusal(
            provider_message_id@,
            reason@,
        ),
{
    let mut message = chars_of("whatsapp message update target `");
    append_text(&mut message, provider_message_id);
    append_text(&mut message, "` ");
    append_text(&mut message, reason);
    CommunicationFixtureIngestError::SignalControlBlocked(string_from_chars(message.as_slice()))
}

/// The metadata an edit leaves on its target message: `current_metadata` is
/// the stored target's metadata, `None` when no message with the edited
/// provider id was stored, which refuses the edit. The edit patch is merged
/// into the metadata, which must be an object.
pub fn whatsapp_message_update_metadata(
    current_metadata: Option<&JsonValue>,
    provider_message_id: &str,
    provider_chat_id: &str,
    accepted_event_id: &str,
) -> (r: Result<JsonValue, CommunicationFixtureIngestError>)
    ensures
        match current_metadata {
            None => r matches Err(CommunicationFixtureIngestError::SignalControlBlocked(m)) && m@
                == update_refusal(provider_message_id@, "is not projected"@),
            Some(current) => match json_view(*current) {
                JsonView::Object(c) => r matches Ok(merged) && json_view(merged) == JsonView::Object(
                    merged_entries(c, edit_patch_of(provider_chat_id@, accepted_event_id@)),
                ),
                _ => r matches Err(CommunicationFixtureIngestError::SignalControlBlocked(m)) && m@
                    == "metadata is not a JSON object"@,
            },
        },
{
    match current_metadata {
        None => Err(update_refused(provider_message_id, "is not projected")),
        Some(current) => {
            merged_object_metadata(current, edit_patch_value(provider_chat_id, accepted_event_id))
        },
    }
}

/// The refusal of an edit whose target vanished while it was projected.
pub fn whatsapp_update_target_disappeared(provider_message_id: &str) -> (e: CommunicationFixtureIngestError)
    ensures
        e matches CommunicationFixtureIngestError::SignalControlBlocked(m) && m@ == update_refusal(
            provider_message_id@,
            "disappeared during projection"@,
        ),
{
    update_refused(provider_message_id, "disappeared during projection")
}

} // verus!
