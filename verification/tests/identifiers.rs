use hermes_hub::fixture_ids::{
    call, channel, conversation, fixture_event, identity, message_ref, message_tombstone,
    message_version, native_runtime_raw_record_id, native_runtime_source_fingerprint, participant,
    reaction, runtime_event_raw, status_feed_conversation, status_message,
    whatsapp_command_executor_event_id,
};
use hermes_hub::stable_ids::{fixture_media_sha256, stable_whatsapp_id, upload_media_sha256};
use sha2::{Digest, Sha256};

fn expected(prefix: &str, parts: &[&str]) -> String {
    let mut hasher = Sha256::new();
    for part in parts {
        hasher.update(part.trim().as_bytes());
        hasher.update(b"\0");
    }
    format!("{prefix}:{:x}", hasher.finalize())
}

#[test]
fn stable_id_hashes_trimmed_parts_with_separators() {
    let id = stable_whatsapp_id("reaction:v5:whatsapp_web", &["acc", " msg ", "actor", "+1"]);
    assert_eq!(id, expected("reaction:v5:whatsapp_web", &["acc", "msg", "actor", "+1"]));
    assert_eq!(id.len(), "reaction:v5:whatsapp_web".len() + 65);
    assert!(id.starts_with("reaction:v5:whatsapp_web:"));
}

#[test]
fn stable_id_of_known_input() {
    assert_eq!(
        stable_whatsapp_id("x", &[]),
        "x:e3b0c44298fc1c149afbf4c8996fb92427ae41e4649b934ca495991b7852b855"
    );
    assert_eq!(
        stable_whatsapp_id("x", &["  "]),
        "x:6e340b9cffb37a989ca544e6bb780a2c78901d3fb33738768511a30617afa01d"
    );
}

#[test]
fn stable_ids_ignore_surrounding_white_space() {
    assert_eq!(conversation("acc", "chat"), conversation(" acc\t", "chat\n"));
    assert_ne!(conversation("acc", "chat"), conversation("acc", "chat2"));
}

#[test]
fn fixture_ids_use_their_prefixes() {
    assert_eq!(reaction("a", "m", "u", "v"), expected("reaction:v5:whatsapp_web", &["a", "m", "u", "v"]));
    assert_eq!(status_message("a", "s"), expected("message:v5:whatsapp_web", &["a", "s"]));
    assert_eq!(call("a", "c"), expected("call:v5:whatsapp_web", &["a", "c"]));
    assert_eq!(channel("a"), expected("channel:v5:whatsapp_web", &["a"]));
    assert_eq!(conversation("a", "c"), expected("conversation:v5:whatsapp_web", &["a", "c"]));
    assert_eq!(identity("a", "k", "i"), expected("identity:v5:whatsapp_web", &["a", "k", "i"]));
    assert_eq!(participant("c", "m"), expected("participant:v5:whatsapp_web", &["c", "m"]));
    assert_eq!(message_version("e"), expected("message_version:v5:whatsapp_web", &["e"]));
    assert_eq!(message_tombstone("e"), expected("message_tombstone:v5:whatsapp_web", &["e"]));
    assert_eq!(
        message_ref("a", "reply", "s", Some("t")),
        expected("message_ref:v5:whatsapp_web", &["a", "reply", "s", "t"])
    );
    assert_eq!(
        message_ref("a", "reply", "s", None),
        expected("message_ref:v5:whatsapp_web", &["a", "reply", "s", ""])
    );
    assert_eq!(
        runtime_event_raw("a", "e"),
        expected("raw:v5:whatsapp_web", &["a", "whatsapp_web_runtime_event", "e"])
    );
    assert_eq!(status_feed_conversation(" a "), "whatsapp_status_feed: a ");
}

#[test]
fn native_runtime_ids() {
    assert_eq!(
        native_runtime_raw_record_id("acc", "whatsapp_web_runtime_event", "evt"),
        expected("raw:v5:whatsapp_native_md", &["acc", "whatsapp_web_runtime_event", "evt"])
    );
    assert_eq!(native_runtime_source_fingerprint("seed"), expected("sha256", &["seed"]));
}

#[test]
fn media_digests() {
    assert_eq!(
        upload_media_sha256(b"abc"),
        "sha256:ba7816bf8f01cfea414140de5dae2223b00361a396177a9cb410ff61f20015ad"
    );
    assert_eq!(
        fixture_media_sha256(" abc"),
        format!("sha256:{:x}", Sha256::digest(b" abc"))
    );
}

#[test]
fn event_ids_sanitize_subject_and_number_the_event() {
    assert_eq!(
        fixture_event("message", "chat:1/é", 1_700_000_000_000_000_000, 7),
        "evt_whatsapp_fixture_message_chat_1___1700000000000000000_7"
    );
    assert_eq!(fixture_event("s", "", -5, 0), "evt_whatsapp_fixture_s__-5_0");
    assert_eq!(
        whatsapp_command_executor_event_id("media", "a-b", 0, 18446744073709551615),
        "evt_whatsapp_executor_media_a_b_0_18446744073709551615"
    );
    assert_eq!(
        fixture_event("x", "y", i64::MIN, 1),
        "evt_whatsapp_fixture_x_y_-9223372036854775808_1"
    );
}
