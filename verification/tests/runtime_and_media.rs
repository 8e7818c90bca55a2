use hermes_hub::json::{JsonNumber, JsonValue};
use hermes_hub::media_download::{
    command_value_string, media_download_content_type, media_download_provider_attachment_id,
    media_download_ref_error, media_download_ref_from_secret_payload, required_secret_base64,
    required_secret_string, WhatsAppProviderWriteCommand,
};
use hermes_hub::runtime_state::{
    runtime_event_state, sanitized_runtime_state_override, whatsapp_runtime_snapshot_changed,
    WhatsappRuntimeSnapshot,
};

fn s(text: &str) -> JsonValue {
    JsonValue::String(text.to_owned())
}

fn obj(entries: Vec<(&str, JsonValue)>) -> JsonValue {
    JsonValue::Object(entries.into_iter().map(|(k, v)| (k.to_owned(), v)).collect())
}

fn number(n: u64) -> JsonValue {
    JsonValue::Number(JsonNumber::PosInt(n))
}

#[test]
fn runtime_state_from_event_name_or_metadata() {
    let empty = obj(vec![]);
    assert_eq!(runtime_event_state("PairingCode", &empty), ("pair_code_pending", "pair_code_pending", "info"));
    assert_eq!(runtime_event_state("OfflineSyncPreview", &empty), ("syncing", "syncing", "info"));
    assert_eq!(runtime_event_state("LoggedOut", &empty), ("revoked", "revoked", "warning"));
    assert_eq!(runtime_event_state("TemporaryBan", &empty), ("degraded", "degraded", "warning"));
    assert_eq!(runtime_event_state("Unknown", &empty), ("degraded", "degraded", "warning"));
    let metadata = obj(vec![
        ("runtime_status", s("stopped")),
        ("lifecycle_state", s("recovering")),
        ("severity", s("blocked")),
    ]);
    assert_eq!(sanitized_runtime_state_override(&metadata), Some(("stopped", "recovering", "blocked")));
    assert_eq!(runtime_event_state("Connected", &metadata), ("stopped", "recovering", "blocked"));
    let not_allowed = obj(vec![
        ("runtime_status", s("recovering")),
        ("lifecycle_state", s("recovering")),
        ("severity", s("info")),
    ]);
    assert_eq!(sanitized_runtime_state_override(&not_allowed), None);
    assert_eq!(runtime_event_state("Connected", &not_allowed), ("available", "available", "info"));
}

fn snapshot(last_error: Option<&str>) -> WhatsappRuntimeSnapshot {
    WhatsappRuntimeSnapshot {
        status: "available".to_owned(),
        provider_shape: "whatsapp_native_md".to_owned(),
        runtime_kind: "native_md".to_owned(),
        session_restore_available: true,
        last_error: last_error.map(str::to_owned),
    }
}

#[test]
fn runtime_snapshot_change_detection() {
    let stored = obj(vec![
        ("whatsapp_runtime_status", s("available")),
        ("whatsapp_provider_shape", s("whatsapp_native_md")),
        ("whatsapp_runtime_kind", s("native_md")),
        ("whatsapp_session_restore_available", JsonValue::Bool(true)),
        ("whatsapp_last_error", JsonValue::Null),
    ]);
    assert!(!whatsapp_runtime_snapshot_changed(Some(&stored), &snapshot(None)));
    assert!(whatsapp_runtime_snapshot_changed(Some(&stored), &snapshot(Some("boom"))));
    assert!(whatsapp_runtime_snapshot_changed(None, &snapshot(None)));
    let mut other = snapshot(None);
    other.status = "degraded".to_owned();
    assert!(whatsapp_runtime_snapshot_changed(Some(&stored), &other));
}

fn command(payload: JsonValue, target_ref: JsonValue) -> WhatsAppProviderWriteCommand {
    WhatsAppProviderWriteCommand {
        command_id: "cmd-1".to_owned(),
        account_id: "acc".to_owned(),
        command_kind: "download_media".to_owned(),
        provider_chat_id: "chat-1".to_owned(),
        provider_message_id: None,
        payload,
        target_ref,
    }
}

#[test]
fn command_values_prefer_payload_then_target() {
    let c = command(
        obj(vec![("content_type", s(" image/png ")), ("provider_media_id", number(4))]),
        obj(vec![("provider_media_id", s("media-9")), ("content_type", s("text/plain"))]),
    );
    assert_eq!(command_value_string(&c, "content_type"), Some("image/png".to_owned()));
    assert_eq!(command_value_string(&c, "provider_media_id"), Some("media-9".to_owned()));
    assert_eq!(media_download_provider_attachment_id(&c), "media-9");
    assert_eq!(media_download_provider_attachment_id(&command(obj(vec![]), obj(vec![]))), "cmd-1");
    let reported = obj(vec![(
        "provider_submission",
        obj(vec![("operation", obj(vec![("content_type", s("video/mp4"))]))]),
    )]);
    assert_eq!(media_download_content_type(&command(obj(vec![]), obj(vec![])), &reported), "video/mp4");
    assert_eq!(media_download_content_type(&c, &reported), "image/png");
    assert_eq!(
        media_download_content_type(&command(obj(vec![]), obj(vec![])), &obj(vec![])),
        "application/octet-stream"
    );
}

fn payload() -> Vec<(&'static str, JsonValue)> {
    vec![
        ("version", number(1)),
        ("account_id", s("acc")),
        ("secret_purpose", s("whatsapp_media_download_ref")),
        ("provider_shape", s("whatsapp_native_md")),
        ("direct_path", s("/v/t62")),
        ("media_key_base64", s("AAEC")),
        ("file_sha256_base64", s("aGVsbG8=")),
        ("file_enc_sha256_base64", s("")),
        ("file_length", number(5)),
        ("media_type", s("image")),
        ("provider_media_ref_fingerprint", s("fp")),
        ("media_key_timestamp", JsonValue::Number(JsonNumber::NegInt(-3))),
    ]
}

#[test]
fn download_reference_is_checked_field_by_field() {
    let c = command(obj(vec![]), obj(vec![]));
    let mut fields = payload();
    fields[7] = ("file_enc_sha256_base64", s("Zg=="));
    let reference = media_download_ref_from_secret_payload(&c, "secret-ref", &obj(fields)).unwrap();
    assert_eq!(reference.secret_ref, "secret-ref");
    assert_eq!(reference.media_key, vec![0, 1, 2]);
    assert_eq!(reference.file_sha256, b"hello".to_vec());
    assert_eq!(reference.file_enc_sha256, b"f".to_vec());
    assert_eq!(reference.file_length, 5);
    assert_eq!(reference.content_type, "application/octet-stream");
    assert_eq!(reference.provider_media_ref_fingerprint, "fp");
    assert_eq!(reference.static_url, None);
    assert_eq!(reference.media_key_timestamp, Some(-3));

    let missing = media_download_ref_from_secret_payload(&c, "r", &obj(payload())).unwrap_err();
    assert_eq!(missing.code, "native_md_media_download_ref_invalid");
    assert_eq!(
        missing.message,
        "WhatsApp media download ref host-vault field `file_enc_sha256_base64` is missing"
    );

    let mut wrong_account = payload();
    wrong_account[1] = ("account_id", s("other"));
    let error = media_download_ref_from_secret_payload(&c, "r", &obj(wrong_account)).unwrap_err();
    assert_eq!(error.message, "WhatsApp media download ref host-vault field `account_id` is mismatch");

    let mut version_two = payload();
    version_two[0] = ("version", number(2));
    let error = media_download_ref_from_secret_payload(&c, "r", &obj(version_two)).unwrap_err();
    assert_eq!(error.message, "WhatsApp media download ref host-vault field `version` is unsupported");

    let mut no_version = payload();
    no_version[0] = ("version", s("1"));
    let error = media_download_ref_from_secret_payload(&c, "r", &obj(no_version)).unwrap_err();
    assert_eq!(
        error.message,
        "WhatsApp media download ref host-vault field `version` is missing_or_invalid"
    );

    let mut bad_base64 = payload();
    bad_base64[5] = ("media_key_base64", s("!!"));
    let error = media_download_ref_from_secret_payload(&c, "r", &obj(bad_base64)).unwrap_err();
    assert_eq!(error.code, "native_md_media_download_ref_invalid_base64");
    assert_eq!(
        error.message,
        "WhatsApp media download ref host-vault field `media_key_base64` is invalid base64"
    );
}

#[test]
fn secret_field_readers() {
    let p = obj(vec![("a", s(" x ")), ("b", s("aGk="))]);
    assert_eq!(required_secret_string(&p, "a"), Ok("x".to_owned()));
    assert_eq!(required_secret_base64(&p, "b"), Ok(b"hi".to_vec()));
    let error = required_secret_string(&p, "c").unwrap_err();
    assert_eq!(error, media_download_ref_error("c", "missing"));
}
