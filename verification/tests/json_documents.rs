use hermes_hub::identity_metadata::{
    merged_identity_display_name_metadata, push_json_string_once, whatsapp_local_edit_diff,
};
use hermes_hub::json::{
    clone_json, json_get, merge_json_objects, merged_object_metadata, redact_secret_like_metadata,
    redact_secret_material, JsonNumber, JsonValue,
};
use hermes_hub::provider_config::{gmail_api_base_url, gmail_send_enabled, zulip_base_url};
use hermes_hub::whatsapp_vocab::CommunicationFixtureIngestError;

fn s(text: &str) -> JsonValue {
    JsonValue::String(text.to_owned())
}

fn obj(entries: Vec<(&str, JsonValue)>) -> JsonValue {
    JsonValue::Object(entries.into_iter().map(|(k, v)| (k.to_owned(), v)).collect())
}

#[test]
fn redaction_replaces_secret_values_at_any_depth() {
    let metadata = obj(vec![
        ("provider_event_id", s("evt")),
        ("session_key", s("do-not-store")),
        (
            "nested",
            obj(vec![
                ("Refresh_Token", s("x")),
                ("count", JsonValue::Number(JsonNumber::PosInt(3))),
                ("list", JsonValue::Array(vec![obj(vec![("password", s("p"))])])),
            ]),
        ),
    ]);
    let redacted = redact_secret_material(metadata);
    assert_eq!(
        redacted,
        obj(vec![
            ("provider_event_id", s("evt")),
            ("session_key", s("[redacted]")),
            (
                "nested",
                obj(vec![
                    ("Refresh_Token", s("[redacted]")),
                    ("count", JsonValue::Number(JsonNumber::PosInt(3))),
                    ("list", JsonValue::Array(vec![obj(vec![("password", s("[redacted]"))])])),
                ]),
            ),
        ])
    );
    let native = redact_secret_like_metadata(obj(vec![("url", s("https://x")), ("media_key", s("k"))]));
    assert_eq!(native, obj(vec![("url", s("[redacted]")), ("media_key", s("[redacted]"))]));
    let fixture = redact_secret_material(obj(vec![("url", s("https://x"))]));
    assert_eq!(fixture, obj(vec![("url", s("https://x"))]));
}

#[test]
fn merge_sets_patch_entries() {
    let merged = merge_json_objects(
        obj(vec![("a", s("1")), ("b", s("2"))]),
        obj(vec![("b", s("3")), ("c", JsonValue::Null)]),
    );
    assert_eq!(merged, obj(vec![("a", s("1")), ("b", s("3")), ("c", JsonValue::Null)]));
    assert_eq!(merge_json_objects(s("x"), obj(vec![("a", s("1"))])), s("x"));
    assert_eq!(merge_json_objects(obj(vec![("a", s("1"))]), s("x")), obj(vec![("a", s("1"))]));
}

#[test]
fn metadata_merge_requires_objects() {
    assert_eq!(
        merged_object_metadata(&obj(vec![("a", s("1"))]), obj(vec![("a", s("2"))])),
        Ok(obj(vec![("a", s("2"))]))
    );
    assert_eq!(
        merged_object_metadata(&s("x"), obj(vec![])),
        Err(CommunicationFixtureIngestError::SignalControlBlocked(
            "metadata is not a JSON object".to_owned()
        ))
    );
    assert_eq!(
        merged_object_metadata(&obj(vec![]), JsonValue::Array(vec![])),
        Err(CommunicationFixtureIngestError::SignalControlBlocked(
            "metadata patch is not a JSON object".to_owned()
        ))
    );
}

#[test]
fn display_name_history_records_each_name_once() {
    let observed = s("2026-01-02T03:04:05Z");
    let first = merged_identity_display_name_metadata(
        Some(" Alice "),
        &obj(vec![("display_name_history", JsonValue::Array(vec![s("Alice")]))]),
        Some("Alicia"),
        obj(vec![("source", s("fixture"))]),
        &observed,
    )
    .unwrap();
    assert_eq!(json_get(&first, "previous_display_name"), Some(&s("Alice")));
    assert_eq!(json_get(&first, "display_name_changed_at"), Some(&observed));
    assert_eq!(json_get(&first, "display_name_observed_at"), Some(&observed));
    assert_eq!(
        json_get(&first, "display_name_history"),
        Some(&JsonValue::Array(vec![s("Alice"), s("Alicia")]))
    );
    assert_eq!(json_get(&first, "source"), Some(&s("fixture")));

    let same = merged_identity_display_name_metadata(
        Some("Alicia"),
        &first,
        Some(" Alicia"),
        obj(vec![]),
        &s("later"),
    )
    .unwrap();
    assert_eq!(json_get(&same, "display_name_changed_at"), Some(&observed));
    assert_eq!(json_get(&same, "display_name_observed_at"), Some(&s("later")));
    assert_eq!(
        json_get(&same, "display_name_history"),
        Some(&JsonValue::Array(vec![s("Alice"), s("Alicia")]))
    );

    let untouched = merged_identity_display_name_metadata(
        Some("x"),
        &obj(vec![]),
        Some("  "),
        obj(vec![("k", s("v"))]),
        &observed,
    )
    .unwrap();
    assert_eq!(untouched, obj(vec![("k", s("v"))]));
}

#[test]
fn push_string_once_skips_present_strings() {
    let mut items = vec![s("a"), JsonValue::Bool(true)];
    push_json_string_once(&mut items, "a");
    push_json_string_once(&mut items, "b");
    push_json_string_once(&mut items, "b");
    assert_eq!(items, vec![s("a"), JsonValue::Bool(true), s("b")]);
}

#[test]
fn local_edit_diff_document() {
    assert_eq!(
        whatsapp_local_edit_diff(None, "new"),
        obj(vec![
            ("kind", s("local_edit_diff")),
            ("new_text", s("new")),
            ("previous_text", JsonValue::Null),
        ])
    );
}

#[test]
fn provider_configuration_readings() {
    assert!(gmail_send_enabled(&obj(vec![("gmail_send_enabled", JsonValue::Bool(true))])));
    assert!(!gmail_send_enabled(&obj(vec![("gmail_send_enabled", s("true"))])));
    assert!(!gmail_send_enabled(&s("x")));
    assert_eq!(
        gmail_api_base_url(&obj(vec![("gmail_api_base_url", s(" http://localhost:9 "))])),
        "http://localhost:9"
    );
    assert_eq!(
        gmail_api_base_url(&obj(vec![("gmail_api_base_url", s("  "))])),
        "https://www.googleapis.com"
    );
    assert_eq!(
        zulip_base_url("acc", &obj(vec![("base_url", s(" https://zulip ")) ])),
        Ok("https://zulip".to_owned())
    );
    let error = zulip_base_url("acc", &obj(vec![])).unwrap_err();
    assert_eq!(error.account_id, "acc");
    assert_eq!(error.field, "base_url");
}

#[test]
fn redacting_twice_is_redacting_once() {
    let metadata = obj(vec![
        ("token", s("t")),
        ("nested", obj(vec![("cookie", s("c")), ("keep", s("k"))])),
        ("items", JsonValue::Array(vec![obj(vec![("secret", s("x"))]), s("plain")])),
    ]);
    let once = redact_secret_material(metadata);
    let twice = redact_secret_material(clone_json(&once));
    assert_eq!(twice, once);
}

#[test]
fn merging_and_redacting_keep_keys_unique() {
    let merged = merge_json_objects(
        obj(vec![("a", s("1")), ("token", s("t"))]),
        obj(vec![("a", s("2")), ("token", s("u")), ("b", s("3"))]),
    );
    let redacted = redact_secret_material(merged);
    let keys: Vec<String> = match &redacted {
        JsonValue::Object(entries) => entries.iter().map(|(k, _)| k.clone()).collect(),
        _ => Vec::new(),
    };
    assert_eq!(keys, vec!["a".to_owned(), "token".to_owned(), "b".to_owned()]);
    assert_eq!(json_get(&redacted, "token"), Some(&s("[redacted]")));
    assert_eq!(json_get(&redacted, "a"), Some(&s("2")));
}
