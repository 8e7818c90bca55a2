use hermes_hub::api_errors::{
    command_executor_runtime_name, host_vault_is_unlocked, outbox_delivery_api_message,
    require_unlocked_host_vault, HostVaultError, VaultMode, WhatsappRuntimeSignalIngestFailure,
};
use hermes_hub::message_refs::{
    forward_ref_documents, present_text, reply_ref_documents, whatsapp_message_ref_plan, whatsapp_ref_targets,
    ForwardOriginObservation,
};
use hermes_hub::whatsapp_vocab::CommunicationFixtureIngestError;
use hermes_hub::json::JsonValue;
use hermes_hub::telegram_messages::{
    canonical_reaction_summary, command_event_payload, mark_read_chat_missing, mark_read_command_documents,
    mark_read_idempotency_key,
    mark_read_provider_chat_id, required_provider_chat_id, CommandEventInput,
    CommunicationProviderMessageCommandResponse, TelegramError, TelegramManualSendResponse,
    TelegramReaction,
};

fn reaction(emoji: &str, sender: &str, name: Option<&str>) -> TelegramReaction {
    TelegramReaction {
        reaction_emoji: emoji.to_owned(),
        sender_id: sender.to_owned(),
        sender_display_name: name.map(|n| n.to_owned()),
    }
}

#[test]
fn present_text_trims_and_drops_blank_values() {
    assert_eq!(present_text(Some("  m0 ")), Some("m0".to_owned()));
    assert_eq!(present_text(Some(" \t ")), None);
    assert_eq!(present_text(Some("")), None);
    assert_eq!(present_text(None), None);
}

#[test]
fn reply_and_forward_refs_are_planned_from_present_fields() {
    let plan = whatsapp_message_ref_plan("acct", "m1", Some(" m0 "), Some("orig"), Some("chat"));
    let reply = plan.reply.expect("reply");
    assert_eq!(reply.target_provider_message_id, "m0");
    assert_eq!(
        reply.message_ref_id,
        "message_ref:v5:whatsapp_web:e8f1dc5fcffd8496a8bfaf52ff36c636611b7981e9d8596204daea51828a1e0d"
    );
    let forward = plan.forward.expect("forward");
    assert_eq!(forward.origin_message_id.as_deref(), Some("orig"));
    assert_eq!(forward.origin_chat_id.as_deref(), Some("chat"));
    assert_eq!(
        forward.message_ref_id,
        "message_ref:v5:whatsapp_web:0f5728454659641b2b63b60ce2ade58a4326722dcd834db3642acdbdc7edeb8a"
    );
}

#[test]
fn forward_from_chat_alone_uses_an_empty_origin() {
    let plan = whatsapp_message_ref_plan("acct", "m1", Some("  "), None, Some("chat"));
    assert!(plan.reply.is_none());
    let forward = plan.forward.expect("forward");
    assert_eq!(forward.origin_message_id, None);
    assert_eq!(
        forward.message_ref_id,
        "message_ref:v5:whatsapp_web:ca10a43065fee3ca10d2e66b237b78ba1d8e2d44a63aa96a20bb3260fa6069e9"
    );
    let none = whatsapp_message_ref_plan("acct", "m1", None, Some(" "), None);
    assert!(none.reply.is_none());
    assert!(none.forward.is_none());
}

#[test]
fn host_vault_must_be_unlocked() {
    assert!(host_vault_is_unlocked(Some(VaultMode::Unlocked)));
    assert!(!host_vault_is_unlocked(Some(VaultMode::Locked)));
    assert!(!host_vault_is_unlocked(None));
    assert_eq!(require_unlocked_host_vault(VaultMode::Unlocked), Ok(()));
    assert_eq!(require_unlocked_host_vault(VaultMode::Locked), Err(HostVaultError::Locked));
    assert_eq!(
        require_unlocked_host_vault(VaultMode::Uninitialized),
        Err(HostVaultError::Uninitialized)
    );
}

#[test]
fn outbox_delivery_messages_are_public_or_generic() {
    assert_eq!(
        outbox_delivery_api_message("provider does not support SMTP send"),
        "provider does not support SMTP send"
    );
    assert_eq!(
        outbox_delivery_api_message("SMTP port is unavailable for this account"),
        "SMTP port is unavailable for this account"
    );
    assert_eq!(
        outbox_delivery_api_message("password rejected by smtp.example.com"),
        "SMTP config is unavailable for this account"
    );
}

#[test]
fn runtime_ingest_failures_have_sink_codes() {
    assert_eq!(
        WhatsappRuntimeSignalIngestFailure::Communication.into_sink_error(),
        "native_md_raw_record_append_failed"
    );
    assert_eq!(
        WhatsappRuntimeSignalIngestFailure::SignalHub.into_sink_error(),
        "native_md_signal_hub_dispatch_failed"
    );
    assert_eq!(
        WhatsappRuntimeSignalIngestFailure::SignalControlBlocked.into_sink_error(),
        "native_md_signal_hub_control_blocked"
    );
    assert_eq!(
        WhatsappRuntimeSignalIngestFailure::AcceptedEventKindMismatch.into_sink_error(),
        "native_md_signal_hub_event_kind_mismatch"
    );
    assert_eq!(command_executor_runtime_name(), "whatsapp_command_executor");
}

#[test]
fn telegram_chat_id_is_required() {
    assert_eq!(required_provider_chat_id(Some("chat-1")), Ok("chat-1".to_owned()));
    assert_eq!(
        required_provider_chat_id(None),
        Err(TelegramError::InvalidRequest(
            "Telegram message does not include provider chat id".to_owned()
        ))
    );
}

#[test]
fn telegram_send_response_uses_the_chat_as_conversation() {
    let response = TelegramManualSendResponse {
        message_id: "msg-1".to_owned(),
        raw_record_id: "raw-1".to_owned(),
        provider_chat_id: "chat-1".to_owned(),
        status: "queued".to_owned(),
    };
    let answer = CommunicationProviderMessageCommandResponse::telegram("cmd-1".to_owned(), &response);
    assert_eq!(answer.message_id, "msg-1");
    assert_eq!(answer.raw_record_id, "raw-1");
    assert_eq!(answer.conversation_id, "chat-1");
    assert_eq!(answer.provider_chat_id, "chat-1");
    assert_eq!(answer.provider_message_id, None);
    assert_eq!(answer.channel_kind, "telegram");
    assert_eq!(answer.status, "queued");
    assert_eq!(answer.command_id, "cmd-1");
    assert_eq!(answer.provider, "telegram");
}

#[test]
fn reactions_are_grouped_by_emoji_with_labels() {
    let reactions = vec![
        reaction("👍", "u1", Some("Ann")),
        reaction("❤", "u2", None),
        reaction("👍", "u3", None),
    ];
    let summary = canonical_reaction_summary("msg-1", &reactions);
    assert_eq!(summary.message_id, "msg-1");
    assert_eq!(summary.total_reactions, 3);
    assert_eq!(summary.active_reactions, 3);
    assert_eq!(summary.reactions.len(), 2);
    let thumbs = summary.reactions.iter().find(|g| g.reaction_emoji == "👍").expect("thumbs");
    assert_eq!(thumbs.count, 2);
    assert_eq!(thumbs.senders, vec!["Ann".to_owned(), "u3".to_owned()]);
    let heart = summary.reactions.iter().find(|g| g.reaction_emoji == "❤").expect("heart");
    assert_eq!(heart.count, 1);
    assert_eq!(heart.senders, vec!["u2".to_owned()]);
    let empty = canonical_reaction_summary("msg-2", &Vec::new());
    assert_eq!(empty.total_reactions, 0);
    assert!(empty.reactions.is_empty());
}

#[test]
fn every_reaction_is_counted_once_in_one_group_per_emoji() {
    let reactions = vec![
        reaction("a", "u1", None),
        reaction("b", "u2", None),
        reaction("a", "u3", Some("Cy")),
        reaction("c", "u4", None),
        reaction("b", "u5", None),
    ];
    let summary = canonical_reaction_summary("m", &reactions);
    let listed: i64 = summary.reactions.iter().map(|g| g.senders.len() as i64).sum();
    assert_eq!(listed, summary.total_reactions);
    let mut emojis: Vec<&str> = summary.reactions.iter().map(|g| g.reaction_emoji.as_str()).collect();
    emojis.sort();
    emojis.dedup();
    assert_eq!(emojis.len(), summary.reactions.len());
}

fn text(value: &str) -> JsonValue {
    JsonValue::String(value.to_owned())
}

fn object(entries: Vec<(&str, JsonValue)>) -> JsonValue {
    JsonValue::Object(entries.into_iter().map(|(k, v)| (k.to_owned(), v)).collect())
}

#[test]
fn command_event_payload_merges_the_extra_payload_and_keeps_it() {
    let extra = object(vec![("telegram_message_id", text("m1")), ("status", text("sent"))]);
    let payload = command_event_payload(CommandEventInput {
        account_id: "acct",
        command_id: "cmd-1",
        command_kind: "pin",
        provider_chat_id: "chat-1",
        message_id: Some("m1"),
        provider_message_id: None,
        status: "queued",
        extra_payload: object(vec![("telegram_message_id", text("m1")), ("status", text("sent"))]),
    });
    assert_eq!(
        payload,
        object(vec![
            ("account_id", text("acct")),
            ("command_id", text("cmd-1")),
            ("command_kind", text("pin")),
            ("action", text("pin")),
            ("provider_chat_id", text("chat-1")),
            ("message_id", text("m1")),
            ("provider_message_id", JsonValue::Null),
            ("status", text("sent")),
            ("telegram_message_id", text("m1")),
            ("payload", extra),
        ])
    );
    let plain = command_event_payload(CommandEventInput {
        account_id: "acct",
        command_id: "cmd-2",
        command_kind: "mark_read",
        provider_chat_id: "chat-1",
        message_id: None,
        provider_message_id: Some("p9"),
        status: "queued",
        extra_payload: JsonValue::Null,
    });
    assert_eq!(
        plain,
        object(vec![
            ("account_id", text("acct")),
            ("command_id", text("cmd-2")),
            ("command_kind", text("mark_read")),
            ("action", text("mark_read")),
            ("provider_chat_id", text("chat-1")),
            ("message_id", JsonValue::Null),
            ("provider_message_id", text("p9")),
            ("status", text("queued")),
            ("payload", JsonValue::Null),
        ])
    );
}

#[test]
fn mark_read_requires_the_messages_account_and_chat() {
    assert_eq!(mark_read_provider_chat_id("acct", Some("chat"), "acct", "chat"), Ok("chat".to_owned()));
    assert_eq!(
        mark_read_provider_chat_id("acct", None, "acct", "chat"),
        Err(TelegramError::InvalidRequest(
            "Telegram message does not include provider chat id".to_owned()
        ))
    );
    assert_eq!(
        mark_read_provider_chat_id("acct", Some("chat"), "other", "other-chat"),
        Err(TelegramError::InvalidRequest(
            "message account_id does not match mark-read request".to_owned()
        ))
    );
    assert_eq!(
        mark_read_provider_chat_id("acct", Some("chat"), "acct", "other-chat"),
        Err(TelegramError::InvalidRequest(
            "message provider_chat_id does not match mark-read request".to_owned()
        ))
    );
    assert_eq!(mark_read_idempotency_key("msg-1", 1_700_000_000_123), "mark_read:msg-1:1700000000123");
    assert_eq!(mark_read_idempotency_key("m", -5), "mark_read:m:-5");
}

#[test]
fn a_reply_to_an_unstored_message_is_refused() {
    let plan = whatsapp_message_ref_plan("acct", "m1", Some(" m0 "), Some("orig"), None);
    assert_eq!(
        whatsapp_ref_targets(&plan, None, Some("stored-orig")).err(),
        Some(CommunicationFixtureIngestError::SignalControlBlocked(
            "whatsapp reply target `m0` is not projected".to_owned()
        ))
    );
    let targets = whatsapp_ref_targets(&plan, Some("stored-m0"), Some("stored-orig")).ok().expect("targets");
    assert_eq!(targets.reply_target_message_id.as_deref(), Some("stored-m0"));
    assert_eq!(targets.forward_target_message_id.as_deref(), Some("stored-orig"));
}

#[test]
fn a_forward_of_an_unstored_original_keeps_no_target() {
    let plan = whatsapp_message_ref_plan("acct", "m1", None, Some("orig"), None);
    let targets = whatsapp_ref_targets(&plan, None, None).ok().expect("targets");
    assert_eq!(targets.reply_target_message_id, None);
    assert_eq!(targets.forward_target_message_id, None);
    let chat_only = whatsapp_message_ref_plan("acct", "m1", None, None, Some("chat"));
    let targets = whatsapp_ref_targets(&chat_only, Some("ignored"), Some("ignored")).ok().expect("targets");
    assert_eq!(targets.reply_target_message_id, None);
    assert_eq!(targets.forward_target_message_id, None);
}

#[test]
fn mark_read_command_documents_and_missing_chat() {
    assert_eq!(
        mark_read_chat_missing("msg-1"),
        TelegramError::InvalidRequest("Telegram chat projection for message `msg-1` was not found".to_owned())
    );
    let (request, target) = mark_read_command_documents("msg-1", "tchat-1", "chat-1", "p-1");
    assert_eq!(
        request,
        object(vec![
            ("source", text("telegram_message_mark_read")),
            ("message_id", text("msg-1")),
            ("last_read_inbox_provider_message_id", text("p-1")),
        ])
    );
    assert_eq!(
        target,
        object(vec![
            ("message_id", text("msg-1")),
            ("telegram_chat_id", text("tchat-1")),
            ("provider_chat_id", text("chat-1")),
            ("provider_message_id", text("p-1")),
        ])
    );
}

#[test]
fn reference_rows_carry_their_metadata_and_provenance() {
    let (metadata, provenance) = reply_ref_documents("whatsapp_web", "chat-1", "raw-1", "m0");
    assert_eq!(
        metadata,
        object(vec![
            ("provider", text("whatsapp_web")),
            ("provider_chat_id", text("chat-1")),
            ("raw_record_id", text("raw-1")),
            ("reply_to_provider_message_id", text("m0")),
        ])
    );
    assert_eq!(provenance, object(vec![("raw_record_id", text("raw-1")), ("relationship_kind", text("reply"))]));
    let origin = ForwardOriginObservation {
        sender_id: text("s1"),
        sender_name: JsonValue::Null,
        forwarded_at: text("2024-01-01T00:00:00Z"),
    };
    let (metadata, provenance) = forward_ref_documents("whatsapp_web", "chat-1", "raw-2", Some("c0"), None, &origin);
    assert_eq!(
        metadata,
        object(vec![
            ("provider", text("whatsapp_web")),
            ("provider_chat_id", text("chat-1")),
            ("raw_record_id", text("raw-2")),
            ("forward_origin_chat_id", text("c0")),
            ("forward_origin_message_id", JsonValue::Null),
            ("forward_origin_sender_id", text("s1")),
            ("forward_origin_sender_name", JsonValue::Null),
            ("forwarded_at", text("2024-01-01T00:00:00Z")),
        ])
    );
    assert_eq!(provenance, object(vec![("raw_record_id", text("raw-2")), ("relationship_kind", text("forward"))]));
}
