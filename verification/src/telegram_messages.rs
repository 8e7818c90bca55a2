//! Telegram message helpers of the provider write service: the chat a
//! command targets, the response to a send command, and the reaction
//! summary of a message.
//!
//! Reactions are grouped in a vector of groups, in the order each emoji first
//! appears, rather than in a `HashMap` keyed by the emoji text: vstd does not
//! specify hash maps with `String` keys (its key model covers integers and
//! `bool`), and the walk order of a hash map is not a function of its
//! contents. The groups themselves, and every count, are the same.

use vstd::prelude::*;
use crate::text::{append_text, chars_of, decimal_int, push_decimal_i64, string_from_chars, text_equal};
use crate::json::{
    clone_json, entries_view, entry_insert, insert_entry, json_view, merge_json_objects, merged_entries, push_entry,
    JsonValue, JsonView,
};

verus! {

/// A failure of a Telegram request.
#[derive(Clone, Debug, PartialEq, Eq)]
pub enum TelegramError {
    InvalidRequest(String),
}

/// The provider chat id of a message, which a write command needs.
pub fn required_provider_chat_id(provider_chat_id: Option<&str>) -> (result: Result<String, TelegramError>)
    ensures
        match provider_chat_id {
            Some(id) => result matches Ok(s) && s@ == id@,
            None => result matches Err(TelegramError::InvalidRequest(m)) && m@
                == "Telegram message does not include provider chat id"@,
        },
{
    match provider_chat_id {
        Some(id) => Ok(id.to_owned()),
        None => Err(TelegramError::InvalidRequest("Telegram message does not include provider chat id".to_owned())),
    }
}

/// The chat a mark-read request reads: the message's provider chat, once
/// the message has one and the request names the same account and chat.
pub open spec fn mark_read_chat_of(
    message_account_id: Seq<char>,
    message_provider_chat_id: Option<Seq<char>>,
    request_account_id: Seq<char>,
    request_provider_chat_id: Seq<char>,
) -> Result<Seq<char>, Seq<char>> {
    match message_provider_chat_id {
        None => Err("Telegram message does not include provider chat id"@),
        Some(chat) => if message_account_id != request_account_id {
            Err("message account_id does not match mark-read request"@)
        } else if chat != request_provider_chat_id {
            Err("message provider_chat_id does not match mark-read request"@)
        } else {
            Ok(chat)
        },
    }
}

/// Checks a mark-read request against the message it names and gives the
/// provider chat id it applies to.
pub fn mark_read_provider_chat_id(
    message_account_id: &str,
    message_provider_chat_id: Option<&str>,
    request_account_id: &str,
    request_provider_chat_id: &str,
) -> (result: Result<String, TelegramError>)
    ensures
        match mark_read_chat_of(
            message_account_id@,
            match message_provider_chat_id {
                Some(c) => Some(c@),
                None => None,
            },
            request_account_id@,
            request_provider_chat_id@,
        ) {
            Ok(chat) => result matches Ok(s) && s@ == chat,
            Err(m) => result matches Err(TelegramError::InvalidRequest(e)) && e@ == m,
        },
{
    let chat = match required_provider_chat_id(message_provider_chat_id) {
        Ok(chat) => chat,
        Err(e) => {
            return Err(e);
        },
    };
    if !text_equal(message_account_id, request_account_id) {
        return Err(TelegramError::InvalidRequest("message account_id does not match mark-read request".to_owned()));
    }
    if !text_equal(chat.as_str(), request_provider_chat_id) {
        return Err(
            TelegramError::InvalidRequest("message provider_chat_id does not match mark-read request".to_owned()),
        );
    }
    Ok(chat)
}

/// The idempotency key of a mark-read command for `message_id` at
/// `now_millis` (milliseconds since the Unix epoch).
pub fn mark_read_idempotency_key(message_id: &str, now_millis: i64) -> (key: String)
    ensures
        key@ == "mark_read:"@ + message_id@ + ":"@ + decimal_int(now_millis as int),
{
    let mut out = chars_of("mark_read:");
    append_text(&mut out, message_id);
    append_text(&mut out, ":");
    push_decimal_i64(&mut out, now_millis);
    string_from_chars(out.as_slice())
}

/// The refusal of a mark-read request whose chat has no projection.
pub fn mark_read_chat_missing(message_id: &str) -> (e: TelegramError)
    ensures
        e matches TelegramError::InvalidRequest(m) && m@ == "Telegram chat projection for message `"@
            + message_id@ + "` was not found"@,
{
    let mut message = chars_of("Telegram chat projection for message `");
    append_text(&mut message, message_id);
    append_text(&mut message, "` was not found");
    TelegramError::InvalidRequest(string_from_chars(message.as_slice()))
}

/// The request document of a mark-read command, which is also its
/// metadata.
pub open spec fn mark_read_request_of(message_id: Seq<char>, provider_message_id: Seq<char>) -> Seq<
    (Seq<char>, JsonView),
> {
    seq![
        ("source"@, JsonView::String("telegram_message_mark_read"@)),
        ("message_id"@, JsonView::String(message_id)),
        ("last_read_inbox_provider_message_id"@, JsonView::String(provider_message_id)),
    ]
}

/// The target document of a mark-read command.
pub open spec fn mark_read_target_of(
    message_id: Seq<char>,
    telegram_chat_id: Seq<char>,
    provider_chat_id: Seq<char>,
    provider_message_id: Seq<char>,
) -> Seq<(Seq<char>, JsonView)> {
    seq![
        ("message_id"@, JsonView::String(message_id)),
        ("telegram_chat_id"@, JsonView::String(telegram_chat_id)),
        ("provider_chat_id"@, JsonView::String(provider_chat_id)),
        ("provider_message_id"@, JsonView::String(provider_message_id)),
    ]
}

/// The request and target documents of the command that records a
/// mark-read: the request document also serves as the command's metadata.
pub fn mark_read_command_documents(
    message_id: &str,
    telegram_chat_id: &str,
    provider_chat_id: &str,
    provider_message_id: &str,
) -> (docs: (JsonValue, JsonValue))
    ensures
        json_view(docs.0) == JsonView::Object(mark_read_request_of(message_id@, provider_message_id@)),
        json_view(docs.1) == JsonView::Object(
            mark_read_target_of(message_id@, telegram_chat_id@, provider_chat_id@, provider_message_id@),
        ),
{
    let mut request: Vec<(String, JsonValue)> = Vec::new();
    push_entry(&mut request, "source", JsonValue::String("telegram_message_mark_read".to_owned()));
    push_entry(&mut request, "message_id", JsonValue::String(message_id.to_owned()));
    push_entry(&mut request, "last_read_inbox_provider_message_id", JsonValue::String(provider_message_id.to_owned()));
    assert(entries_view(request@) =~= mark_read_request_of(message_id@, provider_message_id@));
    let mut target: Vec<(String, JsonValue)> = Vec::new();
    push_entry(&mut target, "message_id", JsonValue::String(message_id.to_owned()));
    push_entry(&mut target, "telegram_chat_id", JsonValue::String(telegram_chat_id.to_owned()));
    push_entry(&mut target, "provider_chat_id", JsonValue::String(provider_chat_id.to_owned()));
    push_entry(&mut target, "provider_message_id", JsonValue::String(provider_message_id.to_owned()));
    assert(entries_view(target@) =~= mark_read_target_of(
        message_id@,
        telegram_chat_id@,
        provider_chat_id@,
        provider_message_id@,
    ));
    (JsonValue::Object(request), JsonValue::Object(target))
}

/// What a manual Telegram send answered.
pub struct TelegramManualSendResponse {
    pub message_id: String,
    pub raw_record_id: String,
    pub provider_chat_id: String,
    pub status: String,
}

/// The answer to a provider message command.
#[derive(Clone, Debug, PartialEq, Eq)]
pub struct CommunicationProviderMessageCommandResponse {
    pub message_id: String,
    pub raw_record_id: String,
    pub conversation_id: String,
    pub provider_chat_id: String,
    pub provider_message_id: Option<String>,
    pub channel_kind: &'static str,
    pub status: String,
    pub command_id: String,
    pub provider: &'static str,
}

impl CommunicationProviderMessageCommandResponse {
    /// The answer to a Telegram send command: the chat stands for the
    /// conversation, and the provider message id is not known yet.
    pub fn telegram(command_id: String, response: &TelegramManualSendResponse) -> (answer: Self)
        ensures
            answer.message_id@ == response.message_id@,
            answer.raw_record_id@ == response.raw_record_id@,
            answer.conversation_id@ == response.provider_chat_id@,
            answer.provider_chat_id@ == response.provider_chat_id@,
            answer.provider_message_id is None,
            answer.channel_kind@ == "telegram"@,
            answer.status@ == response.status@,
            answer.command_id == command_id,
            answer.provider@ == "telegram"@,
    {
        CommunicationProviderMessageCommandResponse {
            message_id: response.message_id.clone(),
            raw_record_id: response.raw_record_id.clone(),
            conversation_id: response.provider_chat_id.clone(),
            provider_chat_id: response.provider_chat_id.clone(),
            provider_message_id: None,
            channel_kind: "telegram",
            status: response.status.clone(),
            command_id,
            provider: "telegram",
        }
    }
}

/// One reaction to a message.
pub struct TelegramReaction {
    pub reaction_emoji: String,
    pub sender_id: String,
    pub sender_display_name: Option<String>,
}

/// The reactions with one emoji.
#[derive(Clone, Debug, PartialEq, Eq)]
pub struct TelegramReactionGroup {
    pub reaction_emoji: String,
    pub count: i64,
    pub senders: Vec<String>,
}

/// The reactions to a message, grouped by emoji.
#[derive(Clone, Debug, PartialEq, Eq)]
pub struct TelegramReactionSummary {
    pub message_id: String,
    pub total_reactions: i64,
    pub active_reactions: i64,
    pub reactions: Vec<TelegramReactionGroup>,
}

/// How a reaction's sender is shown: by display name, else by id.
pub open spec fn sender_label(r: TelegramReaction) -> Seq<char> {
    match r.sender_display_name {
        Some(name) => name@,
        None => r.sender_id@,
    }
}

/// The position of the group of `emoji`, or -1.
pub open spec fn group_position(groups: Seq<(Seq<char>, Seq<Seq<char>>)>, emoji: Seq<char>) -> int
    decreases groups.len(),
{
    if groups.len() == 0 {
        -1
    } else if groups.last().0 == emoji {
        groups.len() - 1
    } else {
        group_position(groups.drop_last(), emoji)
    }
}

/// The groups of `reactions`: each reaction's sender joins the group of its
/// emoji, a group being opened at the emoji's first reaction.
pub open spec fn reaction_groups(reactions: Seq<TelegramReaction>) -> Seq<(Seq<char>, Seq<Seq<char>>)>
    decreases reactions.len(),
{
    if reactions.len() == 0 {
        seq![]
    } else {
        let groups = reaction_groups(reactions.drop_last());
        let r = reactions.last();
        let p = group_position(groups, r.reaction_emoji@);
        if p < 0 {
            groups.push((r.reaction_emoji@, seq![sender_label(r)]))
        } else {
            groups.update(p, (groups[p].0, groups[p].1.push(sender_label(r))))
        }
    }
}

/// The emoji and the sender labels of a group; its count is stated apart,
/// as the number of its senders.
pub open spec fn group_view(g: TelegramReactionGroup) -> (Seq<char>, Seq<Seq<char>>) {
    (g.reaction_emoji@, g.senders@.map_values(|s: String| s@))
}

proof fn lemma_group_position(groups: Seq<(Seq<char>, Seq<Seq<char>>)>, emoji: Seq<char>)
    ensures
        -1 <= group_position(groups, emoji) < groups.len(),
        group_position(groups, emoji) >= 0 ==> groups[group_position(groups, emoji)].0 == emoji,
        group_position(groups, emoji) < 0 ==> forall|j: int| 0 <= j < groups.len() ==> #[trigger] groups[j].0 != emoji,
    decreases groups.len(),
{
    if groups.len() > 0 && groups.last().0 != emoji {
        lemma_group_position(groups.drop_last(), emoji);
        if group_position(groups, emoji) < 0 {
            assert forall|j: int| 0 <= j < groups.len() implies #[trigger] groups[j].0 != emoji by {
                if j < groups.len() - 1 {
                    assert(groups[j] == groups.drop_last()[j]);
                }
            }
        }
    }
}

/// The number of senders listed over all `groups`.
pub open spec fn senders_total(groups: Seq<(Seq<char>, Seq<Seq<char>>)>) -> int
    decreases groups.len(),
{
    if groups.len() == 0 {
        0
    } else {
        senders_total(groups.drop_last()) + groups.last().1.len()
    }
}

proof fn lemma_senders_total_update(
    groups: Seq<(Seq<char>, Seq<Seq<char>>)>,
    p: int,
    g: (Seq<char>, Seq<Seq<char>>),
)
    requires
        0 <= p < groups.len(),
    ensures
        senders_total(groups.update(p, g)) == senders_total(groups) - groups[p].1.len() + g.1.len(),
    decreases groups.len(),
{
    let updated = groups.update(p, g);
    if p == groups.len() - 1 {
        assert(updated.drop_last() =~= groups.drop_last());
    } else {
        lemma_senders_total_update(groups.drop_last(), p, g);
        assert(updated.drop_last() =~= groups.drop_last().update(p, g));
    }
}

/// Every reaction is counted once: the groups list as many senders as there
/// are reactions.
pub proof fn lemma_every_reaction_counted_once(reactions: Seq<TelegramReaction>)
    ensures
        senders_total(reaction_groups(reactions)) == reactions.len(),
    decreases reactions.len(),
{
    if reactions.len() > 0 {
        let groups = reaction_groups(reactions.drop_last());
        let r = reactions.last();
        lemma_every_reaction_counted_once(reactions.drop_last());
        lemma_group_position(groups, r.reaction_emoji@);
        let p = group_position(groups, r.reaction_emoji@);
        if p < 0 {
            let g = (r.reaction_emoji@, seq![sender_label(r)]);
            assert(groups.push(g).drop_last() =~= groups);
        } else {
            lemma_senders_total_update(groups, p, (groups[p].0, groups[p].1.push(sender_label(r))));
        }
    }
}

/// Each emoji has one group: no two groups share an emoji.
pub proof fn lemma_one_group_per_emoji(reactions: Seq<TelegramReaction>)
    ensures
        forall|i: int, j: int|
            0 <= i < j < reaction_groups(reactions).len() ==> #[trigger] reaction_groups(reactions)[i].0
                != #[trigger] reaction_groups(reactions)[j].0,
    decreases reactions.len(),
{
    if reactions.len() > 0 {
        let groups = reaction_groups(reactions.drop_last());
        let r = reactions.last();
        lemma_one_group_per_emoji(reactions.drop_last());
        lemma_group_position(groups, r.reaction_emoji@);
        let out = reaction_groups(reactions);
        assert forall|i: int, j: int| 0 <= i < j < out.len() implies #[trigger] out[i].0 != #[trigger] out[j].0 by {
            if j < groups.len() {
                assert(out[i].0 == groups[i].0 && out[j].0 == groups[j].0);
            } else {
                assert(out[i].0 == groups[i].0);
            }
        }
    }
}

/// Every group counts its senders, and none has more than `bound`.
pub open spec fn counts_within(groups: Seq<TelegramReactionGroup>, bound: int) -> bool {
    forall|j: int| 0 <= j < groups.len() ==> #[trigger] group_counted(groups[j], bound)
}

/// The group counts its senders, of which it has at most `bound`.
pub open spec fn group_counted(g: TelegramReactionGroup, bound: int) -> bool {
    g.count == g.senders@.len() && g.senders@.len() <= bound
}

proof fn lemma_count_of(groups: Seq<TelegramReactionGroup>, bound: int, p: int)
    requires
        counts_within(groups, bound),
        0 <= p < groups.len(),
    ensures
        group_counted(groups[p], bound),
{
}

proof fn lemma_counts_update(groups: Seq<TelegramReactionGroup>, p: int, g: TelegramReactionGroup, bound: int)
    requires
        counts_within(groups, bound),
        0 <= p < groups.len(),
        g.count == groups[p].count + 1,
        g.senders@.len() == groups[p].senders@.len() + 1,
    ensures
        counts_within(groups.update(p, g), bound + 1),
{
    assert(group_counted(groups[p], bound));
    assert forall|j: int| 0 <= j < groups.len() implies #[trigger] group_counted(groups.update(p, g)[j], bound + 1) by {
        assert(group_counted(groups[j], bound));
    }
}

proof fn lemma_counts_push(groups: Seq<TelegramReactionGroup>, g: TelegramReactionGroup, bound: int)
    requires
        counts_within(groups, bound),
        g.count == 1,
        g.senders@.len() == 1,
        bound >= 0,
    ensures
        counts_within(groups.push(g), bound + 1),
{
    assert forall|j: int| 0 <= j < groups.len() + 1 implies #[trigger] group_counted(groups.push(g)[j], bound + 1) by {
        if j < groups.len() {
            assert(group_counted(groups[j], bound));
        }
    }
}

#[verifier::spinoff_prover]
/// The reaction summary of a message: every reaction counted once, grouped
/// by emoji in the order the emojis first appear.
pub fn canonical_reaction_summary(message_id: &str, reactions: &Vec<TelegramReaction>) -> (summary:
    TelegramReactionSummary)
    requires
        reactions@.len() <= i64::MAX,
    ensures
        summary.message_id@ == message_id@,
        summary.total_reactions == reactions@.len(),
        summary.active_reactions == reactions@.len(),
        summary.reactions@.map_values(|g: TelegramReactionGroup| group_view(g)) == reaction_groups(reactions@),
        forall|i: int| 0 <= i < summary.reactions@.len() ==> #[trigger] summary.reactions@[i].count
            == summary.reactions@[i].senders@.len(),
{
    let total = reactions.len() as i64;
    let mut groups: Vec<TelegramReactionGroup> = Vec::new();
    let mut i: usize = 0;
    while i < reactions.len()
        invariant
            i <= reactions@.len() <= i64::MAX,
            groups@.map_values(|g: TelegramReactionGroup| group_view(g)) == reaction_groups(reactions@.subrange(0, i as int)),
            groups@.len() <= i,
            counts_within(groups@, i as int),
        decreases reactions@.len() - i,
    {
        let r = &reactions[i];
        let label = match &r.sender_display_name {
            Some(name) => name.clone(),
            None => r.sender_id.clone(),
        };
        let ghost before = groups@.map_values(|g: TelegramReactionGroup| group_view(g));
        proof {
            lemma_group_position(before, r.reaction_emoji@);
            assert(reactions@.subrange(0, i as int + 1).drop_last() =~= reactions@.subrange(0, i as int));
        }
        let mut found: Option<usize> = None;
        let mut k: usize = groups.len();
        assert(before.subrange(0, k as int) =~= before);
        while k > 0 && found.is_none()
            invariant
                k <= groups@.len(),
                i < reactions@.len() <= i64::MAX,
                before == groups@.map_values(|g: TelegramReactionGroup| group_view(g)),
                counts_within(groups@, i as int),
                found is None ==> group_position(before, r.reaction_emoji@) == group_position(
                    before.subrange(0, k as int),
                    r.reaction_emoji@,
                ),
                found matches Some(p) ==> p < groups@.len() && group_position(before, r.reaction_emoji@)
                    == p,
            decreases k as int + if found is None { 1int } else { 0int },
        {
            if text_equal(groups[k - 1].reaction_emoji.as_str(), r.reaction_emoji.as_str()) {
                assert(before.subrange(0, k as int).last() == before[k - 1]);
                found = Some(k - 1);
            } else {
                assert(before.subrange(0, k as int).drop_last() =~= before.subrange(0, k as int - 1));
                assert(before.subrange(0, k as int).last() == before[k - 1]);
                k = k - 1;
            }
        }
        assert(label@ == sender_label(reactions@[i as int]));
        match found {
            Some(p) => {
                let ghost old_groups = groups@;
                proof {
                    lemma_count_of(old_groups, i as int, p as int);
                }
                let mut group = groups.remove(p);
                group.senders.push(label);
                group.count = group.count + 1;
                groups.insert(p, group);
                proof {
                    assert(groups@ =~= old_groups.update(p as int, group));
                    assert(group.senders@.map_values(|s: String| s@) =~= old_groups[p as int].senders@.map_values(
                        |s: String| s@,
                    ).push(label@));
                    assert(groups@.map_values(|g: TelegramReactionGroup| group_view(g)) =~= before.update(
                        p as int,
                        (before[p as int].0, before[p as int].1.push(sender_label(reactions@[i as int]))),
                    ));
                    lemma_counts_update(old_groups, p as int, group, i as int);
                }
            },
            None => {
                let ghost old_groups = groups@;
                let mut senders: Vec<String> = Vec::new();
                senders.push(label);
                let group = TelegramReactionGroup { reaction_emoji: r.reaction_emoji.clone(), count: 1, senders };
                groups.push(group);
                proof {
                    assert(group.senders@.map_values(|s: String| s@) =~= seq![label@]);
                    assert(groups@.map_values(|g: TelegramReactionGroup| group_view(g)) =~= before.push(
                        (r.reaction_emoji@, seq![sender_label(reactions@[i as int])]),
                    ));
                    lemma_counts_push(old_groups, group, i as int);
                }
            },
        }
        i = i + 1;
    }
    assert(reactions@.subrange(0, i as int) =~= reactions@);
    assert forall|k: int| 0 <= k < groups@.len() implies #[trigger] groups@[k].count == groups@[k].senders@.len() by {
        assert(group_counted(groups@[k], i as int));
    }
    TelegramReactionSummary {
        message_id: message_id.to_owned(),
        total_reactions: total,
        active_reactions: total,
        reactions: groups,
    }
}

/// What a Telegram command status event reports.
pub struct CommandEventInput<'a> {
    pub account_id: &'a str,
    pub command_id: &'a str,
    pub command_kind: &'a str,
    pub provider_chat_id: &'a str,
    pub message_id: Option<&'a str>,
    pub provider_message_id: Option<&'a str>,
    pub status: &'a str,
    pub extra_payload: JsonValue,
}

/// A text as a JSON string, or `null` when there is none.
pub open spec fn optional_json_text(text: Option<&str>) -> JsonView {
    match text {
        Some(t) => JsonView::String(t@),
        None => JsonView::Null,
    }
}

/// The fields every command status event carries.
pub open spec fn command_event_fields(input: CommandEventInput) -> Seq<(Seq<char>, JsonView)> {
    seq![
        ("account_id"@, JsonView::String(input.account_id@)),
        ("command_id"@, JsonView::String(input.command_id@)),
        ("command_kind"@, JsonView::String(input.command_kind@)),
        ("action"@, JsonView::String(input.command_kind@)),
        ("provider_chat_id"@, JsonView::String(input.provider_chat_id@)),
        ("message_id"@, optional_json_text(input.message_id)),
        ("provider_message_id"@, optional_json_text(input.provider_message_id)),
        ("status"@, JsonView::String(input.status@)),
    ]
}

/// The payload of a command status event: the common fields, overridden by
/// the entries of the extra payload when it is an object, and the extra
/// payload itself under `payload`.
pub open spec fn command_event_payload_of(input: CommandEventInput) -> JsonView {
    let extra = json_view(input.extra_payload);
    let merged = match extra {
        JsonView::Object(e) => merged_entries(command_event_fields(input), e),
        _ => command_event_fields(input),
    };
    JsonView::Object(entry_insert(merged, "payload"@, extra))
}

/// A text as a JSON value, `null` when there is none.
fn optional_text_value(text: Option<&str>) -> (value: JsonValue)
    ensures
        json_view(value) == optional_json_text(text),
{
    match text {
        Some(t) => JsonValue::String(t.to_owned()),
        None => JsonValue::Null,
    }
}

/// The payload of a Telegram command status event.
pub fn command_event_payload(input: CommandEventInput) -> (payload: JsonValue)
    ensures
        json_view(payload) == command_event_payload_of(input),
{
    let mut entries: Vec<(String, JsonValue)> = Vec::new();
    push_entry(&mut entries, "account_id", JsonValue::String(input.account_id.to_owned()));
    push_entry(&mut entries, "command_id", JsonValue::String(input.command_id.to_owned()));
    push_entry(&mut entries, "command_kind", JsonValue::String(input.command_kind.to_owned()));
    push_entry(&mut entries, "action", JsonValue::String(input.command_kind.to_owned()));
    push_entry(&mut entries, "provider_chat_id", JsonValue::String(input.provider_chat_id.to_owned()));
    push_entry(&mut entries, "message_id", optional_text_value(input.message_id));
    push_entry(&mut entries, "provider_message_id", optional_text_value(input.provider_message_id));
    push_entry(&mut entries, "status", JsonValue::String(input.status.to_owned()));
    assert(entries_view(entries@) =~= command_event_fields(input));
    let extra = clone_json(&input.extra_payload);
    let merged = merge_json_objects(JsonValue::Object(entries), extra);
    match merged {
        JsonValue::Object(mut merged_entries) => {
            insert_entry(&mut merged_entries, "payload".to_owned(), input.extra_payload);
            JsonValue::Object(merged_entries)
        },
        other => other,
    }
}

/// Law: a mark-read request is accepted exactly when the message has a
/// provider chat, the request names the message's account and that chat;
/// it then applies to that chat.
pub proof fn lemma_mark_read_needs_matching_account_and_chat(
    message_account_id: Seq<char>,
    message_provider_chat_id: Option<Seq<char>>,
    request_account_id: Seq<char>,
    request_provider_chat_id: Seq<char>,
)
    ensures
        mark_read_chat_of(message_account_id, message_provider_chat_id, request_account_id, request_provider_chat_id)
            is Ok <==> (message_provider_chat_id == Some(request_provider_chat_id) && message_account_id
            == request_account_id),
        mark_read_chat_of(message_account_id, message_provider_chat_id, request_account_id, request_provider_chat_id)
            matches Ok(chat) ==> chat == request_provider_chat_id,
{
}

} // verus!
