//! The identifiers of the WhatsApp fixture ingest: stable record ids and
//! fixture event ids.

use vstd::prelude::*;
use crate::stable_ids::{part_texts, stable_id, stable_whatsapp_id};
use crate::text::{
    append_text, append_underscored, concat_text, decimal_int, decimal_nat, push_decimal_i64,
    push_decimal_u64, string_from_chars, underscore_non_alphanumeric,
};

verus! {

/// The id of a reaction `value` by `actor_id` on `message_id`.
pub fn reaction(account_id: &str, message_id: &str, actor_id: &str, value: &str) -> (id: String)
    ensures
        id@ == stable_id(
            "reaction:v5:whatsapp_web"@,
            seq![account_id@, message_id@, actor_id@, value@],
        ),
{
    let parts = [account_id, message_id, actor_id, value];
    assert(part_texts(parts@) =~= seq![account_id@, message_id@, actor_id@, value@]);
    stable_whatsapp_id("reaction:v5:whatsapp_web", &parts)
}

/// The message id of a status post.
pub fn status_message(account_id: &str, status_id: &str) -> (id: String)
    ensures
        id@ == stable_id("message:v5:whatsapp_web"@, seq![account_id@, status_id@]),
{
    let parts = [account_id, status_id];
    assert(part_texts(parts@) =~= seq![account_id@, status_id@]);
    stable_whatsapp_id("message:v5:whatsapp_web", &parts)
}

/// The id of a call.
pub fn call(account_id: &str, call_id: &str) -> (id: String)
    ensures
        id@ == stable_id("call:v5:whatsapp_web"@, seq![account_id@, call_id@]),
{
    let parts = [account_id, call_id];
    assert(part_texts(parts@) =~= seq![account_id@, call_id@]);
    stable_whatsapp_id("call:v5:whatsapp_web", &parts)
}

/// The channel id of an account.
pub fn channel(account_id: &str) -> (id: String)
    ensures
        id@ == stable_id("channel:v5:whatsapp_web"@, seq![account_id@]),
{
    let parts = [account_id];
    assert(part_texts(parts@) =~= seq![account_id@]);
    stable_whatsapp_id("channel:v5:whatsapp_web", &parts)
}

/// The id of a chat's conversation.
pub fn conversation(account_id: &str, chat_id: &str) -> (id: String)
    ensures
        id@ == stable_id("conversation:v5:whatsapp_web"@, seq![account_id@, chat_id@]),
{
    let parts = [account_id, chat_id];
    assert(part_texts(parts@) =~= seq![account_id@, chat_id@]);
    stable_whatsapp_id("conversation:v5:whatsapp_web", &parts)
}

/// The id of an identity of a given kind.
pub fn identity(account_id: &str, kind: &str, identity_id: &str) -> (id: String)
    ensures
        id@ == stable_id("identity:v5:whatsapp_web"@, seq![account_id@, kind@, identity_id@]),
{
    let parts = [account_id, kind, identity_id];
    assert(part_texts(parts@) =~= seq![account_id@, kind@, identity_id@]);
    stable_whatsapp_id("identity:v5:whatsapp_web", &parts)
}

/// The id of a conversation member.
pub fn participant(conversation_id: &str, member_id: &str) -> (id: String)
    ensures
        id@ == stable_id("participant:v5:whatsapp_web"@, seq![conversation_id@, member_id@]),
{
    let parts = [conversation_id, member_id];
    assert(part_texts(parts@) =~= seq![conversation_id@, member_id@]);
    stable_whatsapp_id("participant:v5:whatsapp_web", &parts)
}

/// The id of the message version an accepted event created.
pub fn message_version(event_id: &str) -> (id: String)
    ensures
        id@ == stable_id("message_version:v5:whatsapp_web"@, seq![event_id@]),
{
    let parts = [event_id];
    assert(part_texts(parts@) =~= seq![event_id@]);
    stable_whatsapp_id("message_version:v5:whatsapp_web", &parts)
}

/// The id of the tombstone an accepted event created.
pub fn message_tombstone(event_id: &str) -> (id: String)
    ensures
        id@ == stable_id("message_tombstone:v5:whatsapp_web"@, seq![event_id@]),
{
    let parts = [event_id];
    assert(part_texts(parts@) =~= seq![event_id@]);
    stable_whatsapp_id("message_tombstone:v5:whatsapp_web", &parts)
}

/// The conversation id of an account's status feed:
/// `whatsapp_status_feed:<account_id>`, the account id kept as it is.
pub fn status_feed_conversation(account_id: &str) -> (id: String)
    ensures
        id@ == "whatsapp_status_feed:"@ + account_id@,
{
    concat_text("whatsapp_status_feed:", account_id)
}

/// The text of an optional part: the empty text when it is missing.
pub open spec fn optional_text(part: Option<&str>) -> Seq<char> {
    match part {
        Some(t) => t@,
        None => ""@,
    }
}

/// The id of a reference of `kind` from `source_id` to `target_id`; a
/// missing target counts as the empty text.
pub fn message_ref(account_id: &str, kind: &str, source_id: &str, target_id: Option<&str>) -> (id:
    String)
    ensures
        id@ == stable_id(
            "message_ref:v5:whatsapp_web"@,
            seq![account_id@, kind@, source_id@, optional_text(target_id)],
        ),
{
    let target = match target_id {
        Some(t) => t,
        None => "",
    };
    assert(target@ == optional_text(target_id));
    let parts = [account_id, kind, source_id, target];
    assert(part_texts(parts@) =~= seq![account_id@, kind@, source_id@, target@]);
    stable_whatsapp_id("message_ref:v5:whatsapp_web", &parts)
}

/// The raw record id of a runtime event.
pub fn runtime_event_raw(account_id: &str, event_id: &str) -> (id: String)
    ensures
        id@ == stable_id(
            "raw:v5:whatsapp_web"@,
            seq![account_id@, "whatsapp_web_runtime_event"@, event_id@],
        ),
{
    let parts = [account_id, "whatsapp_web_runtime_event", event_id];
    assert(part_texts(parts@) =~= seq![account_id@, "whatsapp_web_runtime_event"@, event_id@]);
    stable_whatsapp_id("raw:v5:whatsapp_web", &parts)
}

/// The raw record id of a native runtime event of `raw_record_kind`.
pub fn native_runtime_raw_record_id(
    account_id: &str,
    raw_record_kind: &str,
    provider_event_id: &str,
) -> (id: String)
    ensures
        id@ == stable_id(
            "raw:v5:whatsapp_native_md"@,
            seq![account_id@, raw_record_kind@, provider_event_id@],
        ),
{
    let parts = [account_id, raw_record_kind, provider_event_id];
    assert(part_texts(parts@) =~= seq![account_id@, raw_record_kind@, provider_event_id@]);
    stable_whatsapp_id("raw:v5:whatsapp_native_md", &parts)
}

/// The source fingerprint of a native runtime event: `sha256:<hex>` of its
/// trimmed fingerprint seed.
pub fn native_runtime_source_fingerprint(source_fingerprint_seed: &str) -> (fingerprint: String)
    ensures
        fingerprint@ == stable_id("sha256"@, seq![source_fingerprint_seed@]),
{
    let parts = [source_fingerprint_seed];
    assert(part_texts(parts@) =~= seq![source_fingerprint_seed@]);
    stable_whatsapp_id("sha256", &parts)
}

/// An event id `<head><scope>_<subject>_<nanos>_<sequence>`, the subject's
/// characters other than ASCII letters and digits replaced by `_`.
pub open spec fn event_id_text(
    head: Seq<char>,
    scope: Seq<char>,
    subject: Seq<char>,
    now_nanos: int,
    sequence: nat,
) -> Seq<char> {
    head + scope + seq!['_'] + underscore_non_alphanumeric(subject) + seq!['_'] + decimal_int(
        now_nanos,
    ) + seq!['_'] + decimal_nat(sequence)
}

fn event_id(head: &str, scope: &str, subject: &str, now_nanos: i64, sequence: u64) -> (id: String)
    ensures
        id@ == event_id_text(head@, scope@, subject@, now_nanos as int, sequence as nat),
{
    let mut out: Vec<char> = Vec::new();
    append_text(&mut out, head);
    append_text(&mut out, scope);
    out.push('_');
    append_underscored(&mut out, subject);
    out.push('_');
    push_decimal_i64(&mut out, now_nanos);
    out.push('_');
    push_decimal_u64(&mut out, sequence);
    assert(out@ =~= event_id_text(head@, scope@, subject@, now_nanos as int, sequence as nat));
    string_from_chars(out.as_slice())
}

/// The id of a fixture event about `subject`, observed at `now_nanos`
/// (nanoseconds since the Unix epoch, 0 when out of range) as the
/// `sequence`-th fixture event of the process.
pub fn fixture_event(scope: &str, subject: &str, now_nanos: i64, sequence: u64) -> (id: String)
    ensures
        id@ == event_id_text(
            "evt_whatsapp_fixture_"@,
            scope@,
            subject@,
            now_nanos as int,
            sequence as nat,
        ),
{
    event_id("evt_whatsapp_fixture_", scope, subject, now_nanos, sequence)
}

/// The id of an event that the WhatsApp command executor emits.
pub fn whatsapp_command_executor_event_id(
    scope: &str,
    subject: &str,
    now_nanos: i64,
    sequence: u64,
) -> (id: String)
    ensures
        id@ == event_id_text(
            "evt_whatsapp_executor_"@,
            scope@,
            subject@,
            now_nanos as int,
            sequence as nat,
        ),
{
    event_id("evt_whatsapp_executor_", scope, subject, now_nanos, sequence)
}

} // verus!
