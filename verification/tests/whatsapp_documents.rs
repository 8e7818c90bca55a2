use hermes_hub::json::{JsonValue, json_get};
use hermes_hub::whatsapp_documents::{
    previous_participant_status, whatsapp_edit_patch, whatsapp_message_update_metadata,
    whatsapp_participant_metadata, whatsapp_status_message_projection,
    whatsapp_update_target_disappeared, ParticipantObservation, StatusAuthorObservation,
};
use hermes_hub::whatsapp_vocab::CommunicationFixtureIngestError;

fn text(value: &str) -> JsonValue {
    JsonValue::String(value.to_owned())
}

fn object(entries: Vec<(&str, JsonValue)>) -> JsonValue {
    JsonValue::Object(entries.into_iter().map(|(k, v)| (k.to_owned(), v)).collect())
}

fn observation(role: &str, status: &str) -> ParticipantObservation {
    ParticipantObservation {
        role: role.to_owned(),
        status: status.to_owned(),
        push_name: text("Ann"),
        business_profile: JsonValue::Null,
        profile_photo_ref: JsonValue::Null,
        is_self: false,
        is_admin: true,
        is_owner: false,
        observed_at: text("2024-01-01T00:00:00Z"),
    }
}

#[test]
fn status_is_projected_to_the_status_feed() {
    let author = StatusAuthorObservation {
        identity_kind: text("phone"),
        address: text("+100"),
        push_name: JsonValue::Null,
        business_profile: JsonValue::Null,
        profile_photo_ref: JsonValue::Null,
    };
    let p = whatsapp_status_message_projection(
        "acct", "status-1", "sender-1", "Sender", "hello", "evt-1", Some("identity-1"), &author, "feed-1",
    );
    assert_eq!(
        p.message_id,
        "message:v5:whatsapp_web:f46ffef565147896800e86e270795a2cf9a0057ec1a2c8ac2d372a09e96b7d85"
    );
    assert_eq!(p.subject, "WhatsApp Status");
    assert_eq!(p.sender, "sender-1");
    assert_eq!(p.recipients, vec!["feed-1".to_owned()]);
    assert_eq!(p.body_text, "hello");
    assert_eq!(p.conversation_id, "feed-1");
    assert_eq!(p.sender_display_name, "Sender");
    assert_eq!(p.delivery_state, "received");
    assert_eq!(
        p.message_metadata,
        object(vec![
            ("communication_object_type", text("status")),
            ("provider_status_id", text("status-1")),
            ("accepted_signal_event_id", text("evt-1")),
            ("status_author_identity_id", text("identity-1")),
            ("status_author_identity_kind", text("phone")),
            ("status_author_address", text("+100")),
            ("status_author_push_name", JsonValue::Null),
            ("status_author_business_profile", JsonValue::Null),
            ("status_author_profile_photo_ref", JsonValue::Null),
        ])
    );
}

#[test]
fn participant_changes_are_marked_only_when_they_happen() {
    let first = whatsapp_participant_metadata(
        "whatsapp_web", "member-1", &observation("admin", "active"), None, None, "raw-1", "evt-1",
    );
    assert_eq!(json_get(&first, "role_changed"), None);
    assert_eq!(json_get(&first, "membership_changed"), None);
    assert_eq!(json_get(&first, "previous_role"), None);
    assert_eq!(json_get(&first, "provider_member_id"), Some(&text("member-1")));
    assert_eq!(json_get(&first, "is_admin"), Some(&JsonValue::Bool(true)));

    let same = whatsapp_participant_metadata(
        "whatsapp_web", "member-1", &observation("admin", "active"), Some("admin"), Some("active"), "raw-2", "evt-2",
    );
    assert_eq!(json_get(&same, "previous_role"), Some(&text("admin")));
    assert_eq!(json_get(&same, "role_changed"), None);
    assert_eq!(json_get(&same, "membership_changed"), None);

    let changed = whatsapp_participant_metadata(
        "whatsapp_web", "member-1", &observation("member", "left"), Some("admin"), Some("active"), "raw-3", "evt-3",
    );
    assert_eq!(json_get(&changed, "role_changed"), Some(&JsonValue::Bool(true)));
    assert_eq!(json_get(&changed, "last_role_change_at"), Some(&text("2024-01-01T00:00:00Z")));
    assert_eq!(json_get(&changed, "membership_changed"), Some(&JsonValue::Bool(true)));
    assert_eq!(json_get(&changed, "previous_status"), Some(&text("active")));
}

#[test]
fn previous_status_is_read_from_the_row_metadata() {
    assert_eq!(previous_participant_status(Some(&object(vec![("status", text("active"))]))), Some("active".to_owned()));
    assert_eq!(previous_participant_status(Some(&object(vec![("status", JsonValue::Bool(true))]))), None);
    assert_eq!(previous_participant_status(None), None);
}

#[test]
fn edits_patch_the_stored_message_or_are_refused() {
    let (patch, provenance) = whatsapp_edit_patch("chat-1", "evt-9", "whatsapp_web", "raw-9");
    assert_eq!(
        patch,
        object(vec![("edited", JsonValue::Bool(true)), ("provider_chat_id", text("chat-1")), ("accepted_signal_event_id", text("evt-9"))])
    );
    assert_eq!(
        provenance,
        object(vec![("provider", text("whatsapp_web")), ("raw_record_id", text("raw-9")), ("accepted_signal_event_id", text("evt-9"))])
    );
    let merged = whatsapp_message_update_metadata(Some(&object(vec![("edited", JsonValue::Bool(false)), ("k", text("v"))])), "p1", "chat-1", "evt-9");
    assert_eq!(
        merged,
        Ok(object(vec![
            ("edited", JsonValue::Bool(true)),
            ("k", text("v")),
            ("provider_chat_id", text("chat-1")),
            ("accepted_signal_event_id", text("evt-9")),
        ]))
    );
    assert_eq!(
        whatsapp_message_update_metadata(None, "p1", "chat-1", "evt-9"),
        Err(CommunicationFixtureIngestError::SignalControlBlocked(
            "whatsapp message update target `p1` is not projected".to_owned()
        ))
    );
    assert_eq!(
        whatsapp_update_target_disappeared("p1"),
        CommunicationFixtureIngestError::SignalControlBlocked(
            "whatsapp message update target `p1` disappeared during projection".to_owned()
        )
    );
}
