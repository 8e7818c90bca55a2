use hermes_hub::command_ingest::{
    fixture_command_ingest_plan, live_media_download_observation, FixtureCommandIngest,
};
use hermes_hub::json::JsonValue;
use hermes_hub::media_download::WhatsAppProviderWriteCommand;

fn text(value: &str) -> JsonValue {
    JsonValue::String(value.to_owned())
}

fn object(entries: Vec<(&str, JsonValue)>) -> JsonValue {
    JsonValue::Object(entries.into_iter().map(|(k, v)| (k.to_owned(), v)).collect())
}

fn command(kind: &str, message: Option<&str>, payload: JsonValue, target_ref: JsonValue) -> WhatsAppProviderWriteCommand {
    WhatsAppProviderWriteCommand {
        command_id: "cmd-7".to_owned(),
        account_id: "acct".to_owned(),
        command_kind: kind.to_owned(),
        provider_chat_id: "chat-1".to_owned(),
        provider_message_id: message.map(|m| m.to_owned()),
        payload,
        target_ref,
    }
}

fn ingest(kind: &str, message: Option<&str>, payload: JsonValue, target_ref: JsonValue) -> Result<FixtureCommandIngest, String> {
    fixture_command_ingest_plan(&command(kind, message, payload, target_ref)).map(|p| p.ingest)
}

#[test]
fn messages_are_ingested_under_the_commands_own_id() {
    let plan = fixture_command_ingest_plan(&command("send_text", None, object(vec![("text", text("hi"))]), object(vec![]))).unwrap();
    assert_eq!(plan.import_batch_id, "whatsapp-command:acct:cmd-7");
    assert_eq!(
        plan.ingest,
        FixtureCommandIngest::Message {
            provider_message_id: "provider-message:cmd-7".to_owned(),
            text: "hi".to_owned(),
            reply_to_provider_message_id: None,
            forward_origin_chat_id: None,
            forward_origin_message_id: None,
            forwarded: false,
        }
    );
    assert_eq!(
        ingest("reply", None, object(vec![("text", text("ok")), ("reply_to_provider_message_id", text("m0"))]), object(vec![])),
        Ok(FixtureCommandIngest::Message {
            provider_message_id: "provider-message:cmd-7".to_owned(),
            text: "ok".to_owned(),
            reply_to_provider_message_id: Some("m0".to_owned()),
            forward_origin_chat_id: None,
            forward_origin_message_id: None,
            forwarded: false,
        })
    );
    assert_eq!(
        ingest("forward", None, object(vec![("from_provider_chat_id", text("c0")), ("from_provider_message_id", text("m0"))]), object(vec![])),
        Ok(FixtureCommandIngest::Message {
            provider_message_id: "provider-message:cmd-7".to_owned(),
            text: "Forwarded message".to_owned(),
            reply_to_provider_message_id: None,
            forward_origin_chat_id: Some("c0".to_owned()),
            forward_origin_message_id: Some("m0".to_owned()),
            forwarded: true,
        })
    );
    assert_eq!(ingest("send_text", None, object(vec![]), object(vec![])), Err("payload.text is required".to_owned()));
}

#[test]
fn edits_deletes_and_reactions_need_the_provider_message() {
    assert_eq!(
        ingest("edit", None, object(vec![("text", text("new"))]), object(vec![])),
        Err("provider_message_id is required".to_owned())
    );
    assert_eq!(ingest("edit", Some("m1"), object(vec![]), object(vec![])), Err("payload.text is required".to_owned()));
    assert_eq!(
        ingest("edit", Some("m1"), object(vec![("text", text("new"))]), object(vec![])),
        Ok(FixtureCommandIngest::MessageUpdate { provider_message_id: "m1".to_owned(), text: "new".to_owned() })
    );
    assert_eq!(
        ingest("delete", Some("m1"), object(vec![]), object(vec![])),
        Ok(FixtureCommandIngest::MessageDelete { provider_message_id: "m1".to_owned() })
    );
    assert_eq!(
        ingest("unreact", Some("m1"), object(vec![("reaction_emoji", text("x"))]), object(vec![])),
        Ok(FixtureCommandIngest::Reaction { provider_message_id: "m1".to_owned(), reaction: "x".to_owned(), is_active: false })
    );
    assert_eq!(
        ingest("react", Some("m1"), object(vec![]), object(vec![])),
        Err("payload.reaction_emoji is required".to_owned())
    );
}

#[test]
fn media_commands_default_their_texts_and_ids() {
    assert_eq!(
        ingest("send_media", None, object(vec![("caption", text("  ")), ("filename", text("a.png"))]), object(vec![])),
        Ok(FixtureCommandIngest::MediaMessage {
            provider_message_id: "provider-message:cmd-7".to_owned(),
            provider_attachment_id: "provider-attachment:cmd-7".to_owned(),
            text: "Media attachment: a.png".to_owned(),
        })
    );
    assert_eq!(
        ingest("send_media", None, object(vec![]), object(vec![])).map(|i| match i {
            FixtureCommandIngest::MediaMessage { text, .. } => text,
            _ => String::new(),
        }),
        Ok("Media attachment: attachment.bin".to_owned())
    );
    assert_eq!(
        ingest("send_voice_note", None, object(vec![("caption", text(" hi "))]), object(vec![])).map(|i| match i {
            FixtureCommandIngest::MediaMessage { text, .. } => text,
            _ => String::new(),
        }),
        Ok(" hi ".to_owned())
    );
    assert_eq!(
        ingest("send_voice_note", None, object(vec![]), object(vec![])).map(|i| match i {
            FixtureCommandIngest::MediaMessage { text, .. } => text,
            _ => String::new(),
        }),
        Ok("Voice note".to_owned())
    );
    assert_eq!(
        ingest("download_media", Some("m1"), object(vec![]), object(vec![("provider_attachment_id", text("att-2"))])),
        Ok(FixtureCommandIngest::MediaDownload {
            provider_message_id: "m1".to_owned(),
            provider_attachment_id: "att-2".to_owned(),
            filename: None,
            content_type: "application/octet-stream".to_owned(),
            sha256: "sha256:50ae2e17febff0c605e79e3c47d6813c81ae6ca80bd2196d0b424c6ea86cd3c3".to_owned(),
            storage_kind: "local_fs".to_owned(),
            storage_path: "whatsapp/fixture/downloads/cmd-7.bin".to_owned(),
        })
    );
}

#[test]
fn dialog_group_and_status_commands() {
    assert_eq!(
        ingest("mute", None, object(vec![]), object(vec![("chat_title", text("Team"))])),
        Ok(FixtureCommandIngest::Dialog {
            chat_title: "Team".to_owned(),
            chat_kind: "private".to_owned(),
            is_archived: false,
            is_pinned: false,
            is_muted: Some(true),
            is_unread: None,
        })
    );
    assert_eq!(
        ingest("mark_read", None, object(vec![]), object(vec![])),
        Ok(FixtureCommandIngest::Dialog {
            chat_title: "chat-1".to_owned(),
            chat_kind: "private".to_owned(),
            is_archived: false,
            is_pinned: false,
            is_muted: None,
            is_unread: Some(false),
        })
    );
    assert_eq!(
        ingest("leave_group", None, object(vec![]), object(vec![])),
        Ok(FixtureCommandIngest::Participant {
            chat_title: "chat-1".to_owned(),
            chat_kind: "group".to_owned(),
            provider_member_id: "self-member:acct".to_owned(),
            provider_identity_id: "self-identity:acct".to_owned(),
            status: "left".to_owned(),
        })
    );
    assert_eq!(
        ingest("publish_status", None, object(vec![]), object(vec![])),
        Ok(FixtureCommandIngest::Status {
            provider_status_id: "provider-status:cmd-7".to_owned(),
            text: Err("payload.text is required".to_owned()),
        })
    );
    assert_eq!(
        ingest("teleport", None, object(vec![]), object(vec![])),
        Err("unsupported fixture command executor kind `teleport`".to_owned())
    );
}

#[test]
fn live_downloads_check_bytes_and_provider_message() {
    let c = command("download_media", None, object(vec![("filename", text("a.jpg"))]), object(vec![("provider_message_id", text(" m5 "))]));
    let missing = live_media_download_observation(&c, None, &JsonValue::Null).unwrap_err();
    assert_eq!(missing.code, "native_md_downloaded_media_bytes_missing");
    let empty = live_media_download_observation(&c, Some(Vec::new()), &JsonValue::Null).unwrap_err();
    assert_eq!(empty.code, "native_md_downloaded_media_bytes_empty");
    let ok = live_media_download_observation(&c, Some(vec![1, 2]), &JsonValue::Null).unwrap();
    assert_eq!(ok.bytes, vec![1, 2]);
    assert_eq!(ok.provider_message_id, "m5");
    assert_eq!(ok.provider_attachment_id, "cmd-7");
    assert_eq!(ok.content_type, "application/octet-stream");
    assert_eq!(ok.filename.as_deref(), Some("a.jpg"));
    assert_eq!(ok.import_batch_id, "whatsapp-native-md-download:acct:cmd-7");
    let blank = command("download_media", Some("  "), object(vec![]), object(vec![("provider_message_id", text("m5"))]));
    let refused = live_media_download_observation(&blank, Some(vec![1]), &JsonValue::Null).unwrap_err();
    assert_eq!(refused.code, "native_md_download_requires_provider_message_id");
    assert_eq!(refused.message, "native_md media download requires provider_message_id before projection");
}
