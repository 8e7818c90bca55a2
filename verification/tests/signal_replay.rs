use hermes_hub::json::{JsonNumber, JsonValue};
use hermes_hub::reports::{SignalReplayBounds, SignalReplayRunReport};
use hermes_hub::signal_replay::{
    close_replay_request, is_raw_signal_event, projection_lifecycle_event_id, replay_completed_payload,
    replay_failed_payload, replayed_count_of, stored_replayed_count, ReplayClosing, ReplayRequestSummary, replay_lifecycle_event_id,
    replay_strategy, ReplayProjection, ReplayStrategy,
};

fn unbounded() -> SignalReplayBounds {
    SignalReplayBounds { from_position: None, to_position: None, from_time: None, to_time: None }
}

#[test]
fn target_projection_comes_first_then_consumer_then_bounds() {
    let bounded = SignalReplayBounds { from_position: Some(5), ..unbounded() };
    assert_eq!(
        replay_strategy(Some("timeline_event_log"), Some("consumer"), &bounded),
        Ok(ReplayStrategy::Projection(ReplayProjection::TimelineEventLog))
    );
    assert_eq!(
        replay_strategy(Some("communication_messages"), None, &unbounded()),
        Ok(ReplayStrategy::Projection(ReplayProjection::CommunicationMessages))
    );
    assert_eq!(
        replay_strategy(Some("person_derived_evidence"), None, &unbounded()),
        Ok(ReplayStrategy::Projection(ReplayProjection::PersonDerivedEvidence))
    );
    assert_eq!(
        replay_strategy(Some("project_link_review_effects"), None, &unbounded()),
        Ok(ReplayStrategy::Projection(ReplayProjection::ProjectLinkReviewEffects))
    );
    assert_eq!(
        replay_strategy(None, Some("consumer-a"), &bounded),
        Ok(ReplayStrategy::Consumer("consumer-a".to_owned()))
    );
    assert_eq!(replay_strategy(None, None, &bounded), Ok(ReplayStrategy::EventLog));
    let by_time = SignalReplayBounds { to_time: Some(1), ..unbounded() };
    assert_eq!(replay_strategy(None, None, &by_time), Ok(ReplayStrategy::EventLog));
    assert_eq!(replay_strategy(None, None, &unbounded()), Ok(ReplayStrategy::PausedEvents));
}

#[test]
fn unknown_projection_is_refused() {
    assert_eq!(
        replay_strategy(Some("mail_threads"), None, &unbounded()),
        Err("unsupported target_projection: mail_threads".to_owned())
    );
}

#[test]
fn event_log_replay_takes_raw_signals_only() {
    assert!(is_raw_signal_event("signal.raw.whatsapp.runtime_event.observed"));
    assert!(!is_raw_signal_event("signal.accepted.whatsapp.runtime_event"));
    assert!(!is_raw_signal_event("signal.raw"));
}

#[test]
fn lifecycle_event_ids_replace_dots() {
    assert_eq!(
        replay_lifecycle_event_id("signal.replay.completed", "req-1"),
        "evt_signal_replay_completed_req-1"
    );
    assert_eq!(
        projection_lifecycle_event_id(
            "projects.link_review_effects.updated",
            Some("project_link_review_effects"),
            "req-2"
        ),
        "evt_projects_link_review_effects_updated_project_link_review_effects_req-2"
    );
    assert_eq!(
        projection_lifecycle_event_id("timeline.rebuilt", None, "req-3"),
        "evt_timeline_rebuilt_projection_req-3"
    );
}

fn text(value: &str) -> JsonValue {
    JsonValue::String(value.to_owned())
}

#[test]
fn replay_counts_saturate() {
    assert_eq!(replayed_count_of(7), 7);
    assert_eq!(replayed_count_of(usize::MAX), u32::MAX);
    assert_eq!(stored_replayed_count(12), 12);
    assert_eq!(stored_replayed_count(u32::MAX), i32::MAX);
}

#[test]
fn replay_requests_close_completed_or_failed() {
    assert_eq!(
        close_replay_request("req-1", Ok(3)),
        ReplayClosing::Completed {
            stored_count: 3,
            report: SignalReplayRunReport { request_id: "req-1".to_owned(), replayed_count: 3 },
        }
    );
    assert_eq!(
        close_replay_request("req-1", Err("boom".to_owned())),
        ReplayClosing::Failed { error: "boom".to_owned() }
    );
    assert_eq!(
        replay_failed_payload("boom"),
        JsonValue::Object(vec![("status".to_owned(), text("failed")), ("error".to_owned(), text("boom"))])
    );
    let payload = replay_completed_payload(
        3,
        &ReplayRequestSummary {
            source_code: text("whatsapp"),
            connection_id: JsonValue::Null,
            event_pattern: text("signal.raw.*"),
            target_consumer: None,
            target_projection: Some("timeline_event_log"),
            from_position: Some(-1),
            to_position: Some(9),
            from_time: None,
            to_time: Some("2024-01-01T00:00:00+00:00"),
        },
    );
    assert_eq!(
        payload,
        JsonValue::Object(vec![
            ("status".to_owned(), text("completed")),
            ("replayed_count".to_owned(), JsonValue::Number(JsonNumber::PosInt(3))),
            ("source_code".to_owned(), text("whatsapp")),
            ("connection_id".to_owned(), JsonValue::Null),
            ("event_pattern".to_owned(), text("signal.raw.*")),
            ("target_consumer".to_owned(), JsonValue::Null),
            ("target_projection".to_owned(), text("timeline_event_log")),
            ("from_position".to_owned(), JsonValue::Number(JsonNumber::NegInt(-1))),
            ("to_position".to_owned(), JsonValue::Number(JsonNumber::PosInt(9))),
            ("from_time".to_owned(), JsonValue::Null),
            ("to_time".to_owned(), text("2024-01-01T00:00:00+00:00")),
        ])
    );
}
