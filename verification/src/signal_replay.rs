//! The decisions of a signal hub replay run: which replay a claimed request
//! asks for, which events the event log replay takes, and the ids of the
//! lifecycle events a run appends.

use vstd::prelude::*;
use crate::reports::{SignalReplayBounds, SignalReplayRunReport};
use crate::json::{clone_json, entries_view, json_view, push_entry, JsonNumber, JsonValue, JsonView, NumberView};
use crate::text::{append_text, chars_of, chars_start_with, string_from_chars, text_equal};

verus! {

/// A projection that a replay can rebuild.
#[derive(Clone, Copy, Debug, PartialEq, Eq, Structural)]
pub enum ReplayProjection {
    CommunicationMessages,
    PersonDerivedEvidence,
    ProjectLinkReviewEffects,
    TimelineEventLog,
}

/// The replay that a request asks for.
#[derive(Clone, Debug, PartialEq, Eq)]
pub enum ReplayStrategy {
    /// Rebuild a projection.
    Projection(ReplayProjection),
    /// Hand the matching events back to a consumer.
    Consumer(String),
    /// Replay the raw signals of the event log within the request's bounds.
    EventLog,
    /// Replay the events that the signal hub paused.
    PausedEvents,
}

/// A replay as the contracts see it.
pub enum StrategyView {
    Projection(ReplayProjection),
    Consumer(Seq<char>),
    EventLog,
    PausedEvents,
}

/// The projection that `name` names.
pub open spec fn projection_named(name: Seq<char>) -> Option<ReplayProjection> {
    if name == "communication_messages"@ {
        Some(ReplayProjection::CommunicationMessages)
    } else if name == "person_derived_evidence"@ {
        Some(ReplayProjection::PersonDerivedEvidence)
    } else if name == "project_link_review_effects"@ {
        Some(ReplayProjection::ProjectLinkReviewEffects)
    } else if name == "timeline_event_log"@ {
        Some(ReplayProjection::TimelineEventLog)
    } else {
        None
    }
}

/// Whether any bound of a replay request is set.
pub open spec fn has_bounds(bounds: SignalReplayBounds) -> bool {
    bounds.from_position is Some || bounds.to_position is Some || bounds.from_time is Some
        || bounds.to_time is Some
}

/// The replay a request asks for: a target projection comes first, then a
/// target consumer, then the event log when the request is bounded, and the
/// paused events otherwise. An unknown projection is refused.
pub open spec fn strategy_of(
    target_projection: Option<Seq<char>>,
    target_consumer: Option<Seq<char>>,
    bounds: SignalReplayBounds,
) -> Result<StrategyView, Seq<char>> {
    match target_projection {
        Some(name) => match projection_named(name) {
            Some(p) => Ok(StrategyView::Projection(p)),
            None => Err("unsupported target_projection: "@ + name),
        },
        None => match target_consumer {
            Some(consumer) => Ok(StrategyView::Consumer(consumer)),
            None => if has_bounds(bounds) {
                Ok(StrategyView::EventLog)
            } else {
                Ok(StrategyView::PausedEvents)
            },
        },
    }
}

pub open spec fn opt_text(s: Option<&str>) -> Option<Seq<char>> {
    match s {
        Some(t) => Some(t@),
        None => None,
    }
}

pub open spec fn strategy_view(result: Result<ReplayStrategy, String>) -> Result<StrategyView, Seq<char>> {
    match result {
        Ok(ReplayStrategy::Projection(p)) => Ok(StrategyView::Projection(p)),
        Ok(ReplayStrategy::Consumer(c)) => Ok(StrategyView::Consumer(c@)),
        Ok(ReplayStrategy::EventLog) => Ok(StrategyView::EventLog),
        Ok(ReplayStrategy::PausedEvents) => Ok(StrategyView::PausedEvents),
        Err(m) => Err(m@),
    }
}

/// The projection named `name`, if the replay knows it.
fn projection_by_name(name: &str) -> (projection: Option<ReplayProjection>)
    ensures
        projection == projection_named(name@),
{
    if text_equal(name, "communication_messages") {
        Some(ReplayProjection::CommunicationMessages)
    } else if text_equal(name, "person_derived_evidence") {
        Some(ReplayProjection::PersonDerivedEvidence)
    } else if text_equal(name, "project_link_review_effects") {
        Some(ReplayProjection::ProjectLinkReviewEffects)
    } else if text_equal(name, "timeline_event_log") {
        Some(ReplayProjection::TimelineEventLog)
    } else {
        None
    }
}

/// The replay that a claimed request asks for.
pub fn replay_strategy(
    target_projection: Option<&str>,
    target_consumer: Option<&str>,
    bounds: &SignalReplayBounds,
) -> (strategy: Result<ReplayStrategy, String>)
    ensures
        strategy_view(strategy) == strategy_of(opt_text(target_projection), opt_text(target_consumer), *bounds),
{
    match target_projection {
        Some(name) => match projection_by_name(name) {
            Some(p) => Ok(ReplayStrategy::Projection(p)),
            None => {
                let mut message = chars_of("unsupported target_projection: ");
                append_text(&mut message, name);
                proof {
                    reveal_strlit("unsupported target_projection: ");
                }
                Err(string_from_chars(message.as_slice()))
            },
        },
        None => match target_consumer {
            Some(consumer) => Ok(ReplayStrategy::Consumer(consumer.to_owned())),
            None => if crate::reports::uses_event_log_replay(bounds) {
                Ok(ReplayStrategy::EventLog)
            } else {
                Ok(ReplayStrategy::PausedEvents)
            },
        },
    }
}

/// Whether an event of the log is a raw signal, which the event log replay
/// replays.
pub fn is_raw_signal_event(event_type: &str) -> (raw: bool)
    ensures
        raw == (event_type@.len() >= "signal.raw."@.len() && event_type@.subrange(
            0,
            "signal.raw."@.len() as int,
        ) == "signal.raw."@),
{
    chars_start_with(&chars_of(event_type), "signal.raw.")
}

/// `s` with every `.` replaced by `_`.
pub open spec fn dots_to_underscores(s: Seq<char>) -> Seq<char> {
    s.map_values(|c: char| if c == '.' { '_' } else { c })
}

/// Appends `s` to `out` with every `.` replaced by `_`.
fn append_without_dots(out: &mut Vec<char>, s: &str)
    ensures
        final(out)@ == old(out)@ + dots_to_underscores(s@),
{
    let chars = chars_of(s);
    let mut i: usize = 0;
    while i < chars.len()
        invariant
            i <= chars@.len(),
            chars@ == s@,
            out@ == old(out)@ + dots_to_underscores(chars@.subrange(0, i as int)),
        decreases chars@.len() - i,
    {
        let c = chars[i];
        if c == '.' {
            out.push('_');
        } else {
            out.push(c);
        }
        assert(dots_to_underscores(chars@.subrange(0, i as int + 1)) =~= dots_to_underscores(
            chars@.subrange(0, i as int),
        ).push(if c == '.' { '_' } else { c }));
        i = i + 1;
    }
    assert(chars@.subrange(0, i as int) =~= chars@);
}

/// The id of the lifecycle event `event_type` of replay request
/// `replay_request_id`.
pub fn replay_lifecycle_event_id(event_type: &str, replay_request_id: &str) -> (id: String)
    ensures
        id@ == "evt_"@ + dots_to_underscores(event_type@) + "_"@ + replay_request_id@,
{
    let mut out = chars_of("evt_");
    append_without_dots(&mut out, event_type);
    append_text(&mut out, "_");
    append_text(&mut out, replay_request_id);
    string_from_chars(out.as_slice())
}

/// The projection a lifecycle event is about: the request's target
/// projection, or `projection` when it names none.
pub open spec fn projection_label(target_projection: Option<Seq<char>>) -> Seq<char> {
    match target_projection {
        Some(name) => name,
        None => "projection"@,
    }
}

/// The id of the projection lifecycle event `event_type` of replay request
/// `request_id`.
pub fn projection_lifecycle_event_id(
    event_type: &str,
    target_projection: Option<&str>,
    request_id: &str,
) -> (id: String)
    ensures
        id@ == "evt_"@ + dots_to_underscores(event_type@) + "_"@ + projection_label(
            opt_text(target_projection),
        ) + "_"@ + request_id@,
{
    let mut out = chars_of("evt_");
    append_without_dots(&mut out, event_type);
    append_text(&mut out, "_");
    match target_projection {
        Some(name) => append_text(&mut out, name),
        None => append_text(&mut out, "projection"),
    }
    append_text(&mut out, "_");
    append_text(&mut out, request_id);
    string_from_chars(out.as_slice())
}

/// The number of events replayed, as a replay run reports it: `len`, or
/// `u32::MAX` when it does not fit.
pub fn replayed_count_of(len: usize) -> (count: u32)
    ensures
        count == if len <= u32::MAX { len as u32 } else { u32::MAX },
{
    if len <= 4294967295usize {
        len as u32
    } else {
        u32::MAX
    }
}

/// The replayed count as the request row stores it: `count`, or
/// `i32::MAX` when it does not fit.
pub fn stored_replayed_count(count: u32) -> (stored: i32)
    ensures
        stored == if count <= i32::MAX { count as i32 } else { i32::MAX },
{
    if count <= 2147483647u32 {
        count as i32
    } else {
        i32::MAX
    }
}

/// A JSON number for `n`, as `serde_json` writes an `i64`.
pub open spec fn i64_number(n: i64) -> JsonView {
    if n < 0 {
        JsonView::Number(NumberView::NegInt(n))
    } else {
        JsonView::Number(NumberView::PosInt(n as u64))
    }
}

fn i64_value(n: i64) -> (v: JsonValue)
    ensures
        json_view(v) == i64_number(n),
{
    if n < 0 {
        JsonValue::Number(JsonNumber::NegInt(n))
    } else {
        JsonValue::Number(JsonNumber::PosInt(n as u64))
    }
}

pub open spec fn optional_i64(n: Option<i64>) -> JsonView {
    match n {
        Some(v) => i64_number(v),
        None => JsonView::Null,
    }
}

fn optional_i64_value(n: Option<i64>) -> (v: JsonValue)
    ensures
        json_view(v) == optional_i64(n),
{
    match n {
        Some(x) => i64_value(x),
        None => JsonValue::Null,
    }
}

pub open spec fn optional_str(t: Option<&str>) -> JsonView {
    match t {
        Some(s) => JsonView::String(s@),
        None => JsonView::Null,
    }
}

fn optional_str_value(t: Option<&str>) -> (v: JsonValue)
    ensures
        json_view(v) == optional_str(t),
{
    match t {
        Some(s) => JsonValue::String(s.to_owned()),
        None => JsonValue::Null,
    }
}

/// What a completed replay request reports of itself. The source, the
/// connection and the event pattern are in their JSON form; the times are
/// RFC 3339 texts.
pub struct ReplayRequestSummary<'a> {
    pub source_code: JsonValue,
    pub connection_id: JsonValue,
    pub event_pattern: JsonValue,
    pub target_consumer: Option<&'a str>,
    pub target_projection: Option<&'a str>,
    pub from_position: Option<i64>,
    pub to_position: Option<i64>,
    pub from_time: Option<&'a str>,
    pub to_time: Option<&'a str>,
}

/// The payload of the event that marks a replay request completed.
pub open spec fn replay_completed_payload_of(replayed_count: u32, r: ReplayRequestSummary) -> JsonView {
    JsonView::Object(
        seq![
            ("status"@, JsonView::String("completed"@)),
            ("replayed_count"@, JsonView::Number(NumberView::PosInt(replayed_count as u64))),
            ("source_code"@, json_view(r.source_code)),
            ("connection_id"@, json_view(r.connection_id)),
            ("event_pattern"@, json_view(r.event_pattern)),
            ("target_consumer"@, optional_str(r.target_consumer)),
            ("target_projection"@, optional_str(r.target_projection)),
            ("from_position"@, optional_i64(r.from_position)),
            ("to_position"@, optional_i64(r.to_position)),
            ("from_time"@, optional_str(r.from_time)),
            ("to_time"@, optional_str(r.to_time)),
        ],
    )
}

/// The payload of the event that marks a replay request completed.
pub fn replay_completed_payload(replayed_count: u32, request: &ReplayRequestSummary) -> (payload: JsonValue)
    ensures
        json_view(payload) == replay_completed_payload_of(replayed_count, *request),
{
    let mut entries: Vec<(String, JsonValue)> = Vec::new();
    push_entry(&mut entries, "status", JsonValue::String("completed".to_owned()));
    push_entry(&mut entries, "replayed_count", JsonValue::Number(JsonNumber::PosInt(replayed_count as u64)));
    push_entry(&mut entries, "source_code", clone_json(&request.source_code));
    push_entry(&mut entries, "connection_id", clone_json(&request.connection_id));
    push_entry(&mut entries, "event_pattern", clone_json(&request.event_pattern));
    push_entry(&mut entries, "target_consumer", optional_str_value(request.target_consumer));
    push_entry(&mut entries, "target_projection", optional_str_value(request.target_projection));
    push_entry(&mut entries, "from_position", optional_i64_value(request.from_position));
    push_entry(&mut entries, "to_position", optional_i64_value(request.to_position));
    push_entry(&mut entries, "from_time", optional_str_value(request.from_time));
    push_entry(&mut entries, "to_time", optional_str_value(request.to_time));
    proof {
        let ghost e = entries_view(entries@);
        assert(e =~= seq![
            ("status"@, JsonView::String("completed"@)),
            ("replayed_count"@, JsonView::Number(NumberView::PosInt(replayed_count as u64))),
            ("source_code"@, json_view(request.source_code)),
            ("connection_id"@, json_view(request.connection_id)),
            ("event_pattern"@, json_view(request.event_pattern)),
            ("target_consumer"@, optional_str(request.target_consumer)),
            ("target_projection"@, optional_str(request.target_projection)),
            ("from_position"@, optional_i64(request.from_position)),
            ("to_position"@, optional_i64(request.to_position)),
            ("from_time"@, optional_str(request.from_time)),
            ("to_time"@, optional_str(request.to_time)),
        ]);
    }
    JsonValue::Object(entries)
}

/// The payload of the event that marks a replay request failed.
pub fn replay_failed_payload(error: &str) -> (payload: JsonValue)
    ensures
        json_view(payload) == JsonView::Object(
            seq![("status"@, JsonView::String("failed"@)), ("error"@, JsonView::String(error@))],
        ),
{
    let mut entries: Vec<(String, JsonValue)> = Vec::new();
    push_entry(&mut entries, "status", JsonValue::String("failed".to_owned()));
    push_entry(&mut entries, "error", JsonValue::String(error.to_owned()));
    assert(entries_view(entries@) =~= seq![
        ("status"@, JsonView::String("failed"@)),
        ("error"@, JsonView::String(error@)),
    ]);
    JsonValue::Object(entries)
}

/// How a claimed replay request is closed.
#[derive(Clone, Debug, PartialEq, Eq)]
pub enum ReplayClosing {
    /// Mark the request completed with `stored_count` and answer `report`.
    Completed { stored_count: i32, report: SignalReplayRunReport },
    /// Mark the request failed with `error`, then fail with it.
    Failed { error: String },
}

/// How a claimed replay request is closed once its replay has run: with the
/// number of events replayed, or with the error that stopped it.
pub fn close_replay_request(request_id: &str, run: Result<u32, String>) -> (closing: ReplayClosing)
    ensures
        match run {
            Ok(count) => closing matches ReplayClosing::Completed { stored_count, report } && stored_count == (
            if count <= i32::MAX {
                count as i32
            } else {
                i32::MAX
            }) && report.request_id@ == request_id@ && report.replayed_count == count,
            Err(e) => closing == ReplayClosing::Failed { error: e },
        },
{
    match run {
        Ok(count) => ReplayClosing::Completed {
            stored_count: stored_replayed_count(count),
            report: SignalReplayRunReport { request_id: request_id.to_owned(), replayed_count: count },
        },
        Err(error) => ReplayClosing::Failed { error },
    }
}

/// Law: a target projection decides the replay whatever the request's
/// consumer and bounds, and only the four known projections are accepted;
/// without one, a target consumer decides it; without either, the event log
/// is replayed exactly when some bound is set, and the paused events
/// otherwise.
pub proof fn lemma_replay_strategy_precedence(
    projection: Option<Seq<char>>,
    consumer: Option<Seq<char>>,
    bounds: SignalReplayBounds,
    other_consumer: Option<Seq<char>>,
    other_bounds: SignalReplayBounds,
)
    ensures
        projection is Some ==> strategy_of(projection, consumer, bounds) == strategy_of(
            projection,
            other_consumer,
            other_bounds,
        ),
        projection matches Some(name) ==> (strategy_of(projection, consumer, bounds) is Ok <==> (name
            == "communication_messages"@ || name == "person_derived_evidence"@ || name
            == "project_link_review_effects"@ || name == "timeline_event_log"@)),
        projection is None && consumer is Some ==> strategy_of(projection, consumer, bounds) == Ok::<
            StrategyView,
            Seq<char>,
        >(StrategyView::Consumer(consumer->0)),
        projection is None && consumer is None ==> (strategy_of(projection, consumer, bounds) == Ok::<
            StrategyView,
            Seq<char>,
        >(StrategyView::EventLog) <==> (bounds.from_position is Some || bounds.to_position is Some
            || bounds.from_time is Some || bounds.to_time is Some)),
        projection is None && consumer is None ==> strategy_of(projection, consumer, bounds) is Ok,
{
}

} // verus!
