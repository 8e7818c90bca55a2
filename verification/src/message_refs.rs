//! Which reply and forward references a WhatsApp message projects, and
//! under which ids; the store lookups and inserts stay with the caller.

use vstd::prelude::*;
use crate::fixture_ids::{message_ref, optional_text};
use crate::stable_ids::stable_id;
use crate::text::{append_text, chars_of, string_from_chars, trim_chars, trim_text};
use crate::whatsapp_vocab::CommunicationFixtureIngestError;
use crate::json::{clone_json, entries_view, json_view, push_entry, JsonValue, JsonView};

verus! {

/// The reply reference of a message.
pub struct ReplyRefPlan {
    /// The provider id of the message replied to, trimmed.
    pub target_provider_message_id: String,
    pub message_ref_id: String,
}

/// The forward reference of a message.
pub struct ForwardRefPlan {
    /// The provider id of the forwarded original, trimmed, when known.
    pub origin_message_id: Option<String>,
    /// The provider id of the chat the original came from, trimmed, when
    /// known.
    pub origin_chat_id: Option<String>,
    pub message_ref_id: String,
}

/// The references a message projects.
pub struct MessageRefPlan {
    pub reply: Option<ReplyRefPlan>,
    pub forward: Option<ForwardRefPlan>,
}

/// The trimmed text of an optional field when it is not blank.
pub open spec fn present(field: Option<Seq<char>>) -> Option<Seq<char>> {
    match field {
        Some(v) => if trim_chars(v).len() > 0 {
            Some(trim_chars(v))
        } else {
            None
        },
        None => None,
    }
}

pub open spec fn opt_string_view(s: Option<String>) -> Option<Seq<char>> {
    match s {
        Some(v) => Some(v@),
        None => None,
    }
}

/// The trimmed text of an optional field when it is not blank.
pub fn present_text(field: Option<&str>) -> (text: Option<String>)
    ensures
        opt_string_view(text) == present(optional_view(field)),
{
    match field {
        Some(v) => {
            let t = trim_text(v);
            if t.as_str().is_empty() {
                None
            } else {
                Some(t)
            }
        },
        None => None,
    }
}

pub open spec fn optional_view(field: Option<&str>) -> Option<Seq<char>> {
    match field {
        Some(v) => Some(v@),
        None => None,
    }
}

/// The plan of a message's references: a reply reference when it names a
/// message it replies to; a forward reference when it names the forwarded
/// original or its chat. Each reference id is the stable id of the account,
/// the kind, the message and the target (the empty text when a forward
/// names no original message).
pub fn whatsapp_message_ref_plan(
    account_id: &str,
    provider_message_id: &str,
    reply_to_provider_message_id: Option<&str>,
    forward_origin_message_id: Option<&str>,
    forward_origin_chat_id: Option<&str>,
) -> (plan: MessageRefPlan)
    ensures
        match present(optional_view(reply_to_provider_message_id)) {
            Some(target) => plan.reply matches Some(r) && r.target_provider_message_id@ == target
                && r.message_ref_id@ == stable_id(
                "message_ref:v5:whatsapp_web"@,
                seq![account_id@, "reply"@, provider_message_id@, target],
            ),
            None => plan.reply is None,
        },
        (present(optional_view(forward_origin_message_id)) is None && present(
            optional_view(forward_origin_chat_id),
        ) is None) <==> plan.forward is None,
        plan.forward is Some ==> {
            let f = plan.forward->0;
            &&& opt_string_view(f.origin_message_id) == present(
                optional_view(forward_origin_message_id),
            )
            &&& opt_string_view(f.origin_chat_id) == present(optional_view(forward_origin_chat_id))
            &&& f.message_ref_id@ == stable_id(
                "message_ref:v5:whatsapp_web"@,
                seq![account_id@, "forward"@, provider_message_id@, match opt_string_view(f.origin_message_id) {
                    Some(t) => t,
                    None => ""@,
                }],
            )
        },
{
    let reply = match present_text(reply_to_provider_message_id) {
        Some(target) => {
            let message_ref_id = message_ref(
                account_id,
                "reply",
                provider_message_id,
                Some(target.as_str()),
            );
            Some(ReplyRefPlan { target_provider_message_id: target, message_ref_id })
        },
        None => None,
    };
    let origin_message_id = present_text(forward_origin_message_id);
    let origin_chat_id = present_text(forward_origin_chat_id);
    let forward = if origin_message_id.is_some() || origin_chat_id.is_some() {
        let origin_ref: Option<&str> = match &origin_message_id {
            Some(origin) => Some(origin.as_str()),
            None => None,
        };
        assert(optional_text(origin_ref) == match opt_string_view(origin_message_id) {
            Some(t) => t,
            None => ""@,
        });
        let message_ref_id = message_ref(account_id, "forward", provider_message_id, origin_ref);
        let plan = ForwardRefPlan { origin_message_id, origin_chat_id, message_ref_id };
        assert(seq![account_id@, "forward"@, provider_message_id@, optional_text(origin_ref)] =~= seq![
            account_id@,
            "forward"@,
            provider_message_id@,
            match opt_string_view(plan.origin_message_id) {
                Some(t) => t,
                None => ""@,
            },
        ]);
        Some(plan)
    } else {
        None
    };
    MessageRefPlan { reply, forward }
}

/// The stored messages a message's references point at, as message ids.
pub struct RefTargets {
    /// The stored message replied to; `None` when the message replies to
    /// nothing.
    pub reply_target_message_id: Option<String>,
    /// The stored original of a forward; `None` when there is no forward,
    /// when the forward names no original message, or when that original
    /// was never stored.
    pub forward_target_message_id: Option<String>,
}

/// Whether the forward of `plan` names an original message to look up.
pub open spec fn forward_names_origin(plan: MessageRefPlan) -> bool {
    match plan.forward {
        Some(f) => f.origin_message_id is Some,
        None => false,
    }
}

/// The provider id of the message that `plan` replies to, or the empty text.
pub open spec fn reply_target_text(plan: MessageRefPlan) -> Seq<char> {
    match plan.reply {
        Some(r) => r.target_provider_message_id@,
        None => ""@,
    }
}

/// Where the references of `plan` point, given what the store found:
/// `reply_target` for the reply's target and `forward_target` for the
/// forward's original message, each `None` when it was never stored. A reply
/// to a message that was never stored is refused, and no reference is
/// written; a forward of an original that was never stored keeps no target.
pub fn whatsapp_ref_targets(plan: &MessageRefPlan, reply_target: Option<&str>, forward_target: Option<&str>) -> (r:
    Result<RefTargets, CommunicationFixtureIngestError>)
    ensures
        r is Err <==> (plan.reply is Some && reply_target is None),
        match r {
            Err(CommunicationFixtureIngestError::SignalControlBlocked(m)) => m@ == "whatsapp reply target `"@
                + reply_target_text(*plan) + "` is not projected"@,
            Ok(t) => {
                &&& opt_string_view(t.reply_target_message_id) == (if plan.reply is Some {
                    optional_view(reply_target)
                } else {
                    None
                })
                &&& opt_string_view(t.forward_target_message_id) == (if forward_names_origin(*plan) {
                    optional_view(forward_target)
                } else {
                    None
                })
            },
        },
{
    let reply_target_message_id = match &plan.reply {
        Some(reply) => match reply_target {
            Some(target) => Some(target.to_owned()),
            None => {
                let mut message = chars_of("whatsapp reply target `");
                append_text(&mut message, reply.target_provider_message_id.as_str());
                append_text(&mut message, "` is not projected");
                return Err(CommunicationFixtureIngestError::SignalControlBlocked(
                    string_from_chars(message.as_slice()),
                ));
            },
        },
        None => None,
    };
    let forward_target_message_id = match &plan.forward {
        Some(forward) => match &forward.origin_message_id {
            Some(_) => match forward_target {
                Some(target) => Some(target.to_owned()),
                None => None,
            },
            None => None,
        },
        None => None,
    };
    Ok(RefTargets { reply_target_message_id, forward_target_message_id })
}

/// A text as a JSON value, `null` when there is none.
pub open spec fn optional_json(t: Option<&str>) -> JsonView {
    match t {
        Some(s) => JsonView::String(s@),
        None => JsonView::Null,
    }
}

fn optional_json_value(t: Option<&str>) -> (v: JsonValue)
    ensures
        json_view(v) == optional_json(t),
{
    match t {
        Some(s) => JsonValue::String(s.to_owned()),
        None => JsonValue::Null,
    }
}

/// The provenance of a reference of `relationship_kind`.
pub open spec fn ref_provenance_of(raw_record_id: Seq<char>, relationship_kind: Seq<char>) -> JsonView {
    JsonView::Object(
        seq![
            ("raw_record_id"@, JsonView::String(raw_record_id)),
            ("relationship_kind"@, JsonView::String(relationship_kind)),
        ],
    )
}

fn ref_provenance(raw_record_id: &str, relationship_kind: &str) -> (p: JsonValue)
    ensures
        json_view(p) == ref_provenance_of(raw_record_id@, relationship_kind@),
{
    let mut entries: Vec<(String, JsonValue)> = Vec::new();
    push_entry(&mut entries, "raw_record_id", JsonValue::String(raw_record_id.to_owned()));
    push_entry(&mut entries, "relationship_kind", JsonValue::String(relationship_kind.to_owned()));
    assert(entries_view(entries@) =~= seq![
        ("raw_record_id"@, JsonView::String(raw_record_id@)),
        ("relationship_kind"@, JsonView::String(relationship_kind@)),
    ]);
    JsonValue::Object(entries)
}

/// The metadata of a reply reference.
pub open spec fn reply_ref_metadata_of(
    provider_kind: Seq<char>,
    provider_chat_id: Seq<char>,
    raw_record_id: Seq<char>,
    reply_to_provider_message_id: Seq<char>,
) -> JsonView {
    JsonView::Object(
        seq![
            ("provider"@, JsonView::String(provider_kind)),
            ("provider_chat_id"@, JsonView::String(provider_chat_id)),
            ("raw_record_id"@, JsonView::String(raw_record_id)),
            ("reply_to_provider_message_id"@, JsonView::String(reply_to_provider_message_id)),
        ],
    )
}

/// The metadata and provenance of a reply reference.
pub fn reply_ref_documents(
    provider_kind: &str,
    provider_chat_id: &str,
    raw_record_id: &str,
    reply_to_provider_message_id: &str,
) -> (docs: (JsonValue, JsonValue))
    ensures
        json_view(docs.0) == reply_ref_metadata_of(
            provider_kind@,
            provider_chat_id@,
            raw_record_id@,
            reply_to_provider_message_id@,
        ),
        json_view(docs.1) == ref_provenance_of(raw_record_id@, "reply"@),
{
    let mut entries: Vec<(String, JsonValue)> = Vec::new();
    push_entry(&mut entries, "provider", JsonValue::String(provider_kind.to_owned()));
    push_entry(&mut entries, "provider_chat_id", JsonValue::String(provider_chat_id.to_owned()));
    push_entry(&mut entries, "raw_record_id", JsonValue::String(raw_record_id.to_owned()));
    push_entry(&mut entries, "reply_to_provider_message_id", JsonValue::String(reply_to_provider_message_id.to_owned()));
    assert(entries_view(entries@) =~= seq![
        ("provider"@, JsonView::String(provider_kind@)),
        ("provider_chat_id"@, JsonView::String(provider_chat_id@)),
        ("raw_record_id"@, JsonView::String(raw_record_id@)),
        ("reply_to_provider_message_id"@, JsonView::String(reply_to_provider_message_id@)),
    ]);
    (JsonValue::Object(entries), ref_provenance(raw_record_id, "reply"))
}

/// What a forwarded message says of its original, each value in the JSON
/// form the observation carries it in.
pub struct ForwardOriginObservation {
    pub sender_id: JsonValue,
    pub sender_name: JsonValue,
    pub forwarded_at: JsonValue,
}

/// The metadata of a forward reference.
pub open spec fn forward_ref_metadata_of(
    provider_kind: Seq<char>,
    provider_chat_id: Seq<char>,
    raw_record_id: Seq<char>,
    origin_chat_id: Option<&str>,
    origin_message_id: Option<&str>,
    origin: ForwardOriginObservation,
) -> JsonView {
    JsonView::Object(
        seq![
            ("provider"@, JsonView::String(provider_kind)),
            ("provider_chat_id"@, JsonView::String(provider_chat_id)),
            ("raw_record_id"@, JsonView::String(raw_record_id)),
            ("forward_origin_chat_id"@, optional_json(origin_chat_id)),
            ("forward_origin_message_id"@, optional_json(origin_message_id)),
            ("forward_origin_sender_id"@, json_view(origin.sender_id)),
            ("forward_origin_sender_name"@, json_view(origin.sender_name)),
            ("forwarded_at"@, json_view(origin.forwarded_at)),
        ],
    )
}

/// The metadata and provenance of a forward reference; the origin ids are
/// the plan's trimmed ones, `null` when absent.
pub fn forward_ref_documents(
    provider_kind: &str,
    provider_chat_id: &str,
    raw_record_id: &str,
    origin_chat_id: Option<&str>,
    origin_message_id: Option<&str>,
    origin: &ForwardOriginObservation,
) -> (docs: (JsonValue, JsonValue))
    ensures
        json_view(docs.0) == forward_ref_metadata_of(
            provider_kind@,
            provider_chat_id@,
            raw_record_id@,
            origin_chat_id,
            origin_message_id,
            *origin,
        ),
        json_view(docs.1) == ref_provenance_of(raw_record_id@, "forward"@),
{
    let mut entries: Vec<(String, JsonValue)> = Vec::new();
    push_entry(&mut entries, "provider", JsonValue::String(provider_kind.to_owned()));
    push_entry(&mut entries, "provider_chat_id", JsonValue::String(provider_chat_id.to_owned()));
    push_entry(&mut entries, "raw_record_id", JsonValue::String(raw_record_id.to_owned()));
    push_entry(&mut entries, "forward_origin_chat_id", optional_json_value(origin_chat_id));
    push_entry(&mut entries, "forward_origin_message_id", optional_json_value(origin_message_id));
    push_entry(&mut entries, "forward_origin_sender_id", clone_json(&origin.sender_id));
    push_entry(&mut entries, "forward_origin_sender_name", clone_json(&origin.sender_name));
    push_entry(&mut entries, "forwarded_at", clone_json(&origin.forwarded_at));
    assert(entries_view(entries@) =~= seq![
        ("provider"@, JsonView::String(provider_kind@)),
        ("provider_chat_id"@, JsonView::String(provider_chat_id@)),
        ("raw_record_id"@, JsonView::String(raw_record_id@)),
        ("forward_origin_chat_id"@, optional_json(origin_chat_id)),
        ("forward_origin_message_id"@, optional_json(origin_message_id)),
        ("forward_origin_sender_id"@, json_view(origin.sender_id)),
        ("forward_origin_sender_name"@, json_view(origin.sender_name)),
        ("forwarded_at"@, json_view(origin.forwarded_at)),
    ]);
    (JsonValue::Object(entries), ref_provenance(raw_record_id, "forward"))
}

/// Law: a message replies exactly when its reply field holds a non-blank
/// id, and then refers to that id trimmed; it is forwarded exactly when its
/// forward origin names a non-blank message or chat.
pub proof fn lemma_ref_plan_follows_present_fields(
    plan: MessageRefPlan,
    reply_to: Option<&str>,
    origin_message: Option<&str>,
    origin_chat: Option<&str>,
)
    requires
        match present(optional_view(reply_to)) {
            Some(target) => plan.reply matches Some(r) && r.target_provider_message_id@ == target,
            None => plan.reply is None,
        },
        (present(optional_view(origin_message)) is None && present(optional_view(origin_chat)) is None)
            <==> plan.forward is None,
    ensures
        plan.reply is Some <==> (reply_to matches Some(r) && trim_chars(r@).len() > 0),
        plan.reply matches Some(r) ==> r.target_provider_message_id@ == trim_chars(reply_to->0@),
        plan.forward is Some <==> ((origin_message matches Some(m) && trim_chars(m@).len() > 0) || (
        origin_chat matches Some(c) && trim_chars(c@).len() > 0)),
{
}

} // verus!
