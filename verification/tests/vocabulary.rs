use hermes_hub::whatsapp_vocab::{
    allowed_lifecycle_state, allowed_runtime_severity, allowed_runtime_status,
    command_requires_upload, is_native_runtime_secret_like_key, is_secret_like_key,
    normalized_whatsapp_media_sha256, normalized_whatsapp_media_storage_kind,
    should_reconcile_whatsapp_runtime_restore, whatsapp_call_direction, whatsapp_call_state,
    whatsapp_media_lifecycle_state, whatsapp_media_runtime_event_kind, CallDirection, CallState,
    CommunicationFixtureIngestError,
};
use hermes_hub::text::trim_text;

#[test]
fn media_event_kinds_and_states() {
    assert_eq!(
        whatsapp_media_runtime_event_kind("whatsapp.media.upload.started"),
        Some("media.upload.started")
    );
    assert_eq!(
        whatsapp_media_runtime_event_kind("whatsapp.media.download.failed"),
        Some("media.download.failed")
    );
    assert_eq!(whatsapp_media_runtime_event_kind(" whatsapp.media.upload.started"), None);
    assert_eq!(whatsapp_media_lifecycle_state("whatsapp.media.download.progress"), "in_progress");
    assert_eq!(whatsapp_media_lifecycle_state("whatsapp.media.upload.requested"), "requested");
    assert_eq!(whatsapp_media_lifecycle_state("whatsapp.media.upload.completed"), "completed");
    assert_eq!(whatsapp_media_lifecycle_state("other"), "observed");
}

#[test]
fn media_storage_and_digest_normalization() {
    assert_eq!(normalized_whatsapp_media_storage_kind(" local_blob "), "local_fs");
    assert_eq!(normalized_whatsapp_media_storage_kind(" s3 "), "s3");
    assert_eq!(normalized_whatsapp_media_sha256(" abc "), "sha256:abc");
    assert_eq!(normalized_whatsapp_media_sha256("sha256:abc"), "sha256:abc");
    assert_eq!(normalized_whatsapp_media_sha256(""), "sha256:");
}

#[test]
fn call_direction_and_state_parse_trimmed_values() {
    assert_eq!(whatsapp_call_direction(" incoming "), Ok(CallDirection::Incoming));
    assert_eq!(whatsapp_call_direction("outgoing"), Ok(CallDirection::Outgoing));
    assert_eq!(
        whatsapp_call_direction(" sideways "),
        Err(CommunicationFixtureIngestError::SignalControlBlocked(
            "unsupported whatsapp call direction `sideways`".to_owned()
        ))
    );
    assert_eq!(whatsapp_call_state("declined"), Ok(CallState::Declined));
    assert_eq!(whatsapp_call_state("\tmissed"), Ok(CallState::Missed));
    assert_eq!(
        whatsapp_call_state("Ringing"),
        Err(CommunicationFixtureIngestError::SignalControlBlocked(
            "unsupported whatsapp call state `Ringing`".to_owned()
        ))
    );
}

#[test]
fn secret_keys_are_matched_case_insensitively_after_trimming() {
    assert!(is_secret_like_key(" Access_Token "));
    assert!(is_secret_like_key("PASSWORD"));
    assert!(!is_secret_like_key("media_key"));
    assert!(is_native_runtime_secret_like_key("Media_Key"));
    assert!(is_native_runtime_secret_like_key("url"));
    assert!(!is_native_runtime_secret_like_key("urls"));
}

#[test]
fn runtime_labels() {
    assert_eq!(allowed_runtime_status("linked"), Some("linked"));
    assert_eq!(allowed_runtime_status("recovering"), None);
    assert_eq!(allowed_lifecycle_state("recovering"), Some("recovering"));
    assert_eq!(allowed_runtime_severity("blocked"), Some("blocked"));
    assert_eq!(allowed_runtime_severity("error"), None);
}

#[test]
fn upload_commands_and_restore_decision() {
    assert!(command_requires_upload("upload_file"));
    assert!(command_requires_upload("send_direct_message_with_upload"));
    assert!(!command_requires_upload("send_stream_message"));
    assert!(should_reconcile_whatsapp_runtime_restore(true, "stopped"));
    assert!(should_reconcile_whatsapp_runtime_restore(false, "linked"));
    assert!(!should_reconcile_whatsapp_runtime_restore(false, "degraded"));
}

#[test]
fn trimming_uses_unicode_white_space() {
    assert_eq!(trim_text("\u{a0} x y \u{2003}\n"), "x y");
    assert_eq!(trim_text("   "), "");
}

#[test]
fn normalized_media_values_normalize_to_themselves() {
    for kind in [" local_blob ", "local_fs", " s3 ", ""] {
        let once = normalized_whatsapp_media_storage_kind(kind);
        assert_ne!(once, "local_blob");
        assert_eq!(normalized_whatsapp_media_storage_kind(&once), once);
    }
    for digest in [" abc ", "sha256:abc", "", "\u{3000}sha256:\u{3000}"] {
        let once = normalized_whatsapp_media_sha256(digest);
        assert!(once.starts_with("sha256:"));
        assert_eq!(normalized_whatsapp_media_sha256(&once), once);
    }
}
