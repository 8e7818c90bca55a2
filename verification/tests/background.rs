use chrono::Utc;
use hermes_hub::backoff::reconnect_delay;
use hermes_hub::service_registry::{BackgroundService, BackgroundServiceRegistry};
use std::time::Duration;

#[test]
fn telegram_runtime_reconciliation_registration_is_once_per_database_url() {
    let mut registry = BackgroundServiceRegistry::new();
    let database_url = format!(
        "postgres://telegram-runtime-reconciliation-test/{}",
        Utc::now().timestamp_nanos_opt().unwrap_or_default()
    );

    assert!(registry.register_telegram_runtime_reconciliation(&database_url));
    assert!(!registry.register_telegram_runtime_reconciliation(&database_url));
}

#[test]
fn outbox_delivery_scheduler_registration_is_once_per_database_url() {
    let mut registry = BackgroundServiceRegistry::new();
    let database_url = format!(
        "postgres://outbox-scheduler-test/{}",
        Utc::now().timestamp_nanos_opt().unwrap_or_default()
    );

    assert!(registry.register_mail_outbox_delivery_scheduler(&database_url));
    assert!(!registry.register_mail_outbox_delivery_scheduler(&database_url));
}

#[test]
fn event_outbox_dispatcher_registration_is_once_per_database_url() {
    let mut registry = BackgroundServiceRegistry::new();
    let database_url = format!(
        "postgres://event-outbox-dispatcher-test/{}",
        Utc::now().timestamp_nanos_opt().unwrap_or_default()
    );

    assert!(registry.register_event_outbox_dispatcher(&database_url));
    assert!(!registry.register_event_outbox_dispatcher(&database_url));
}

#[test]
fn signal_replay_dispatcher_registration_is_once_per_database_url() {
    let mut registry = BackgroundServiceRegistry::new();
    let database_url = format!(
        "postgres://signal-replay-dispatcher-test/{}",
        Utc::now().timestamp_nanos_opt().unwrap_or_default()
    );

    assert!(registry.register_signal_replay_dispatcher(&database_url));
    assert!(!registry.register_signal_replay_dispatcher(&database_url));
}

#[test]
fn zoom_token_maintenance_scheduler_registration_is_once_per_database_url() {
    let mut registry = BackgroundServiceRegistry::new();
    let database_url = format!(
        "postgres://zoom-token-maintenance-test/{}",
        Utc::now().timestamp_nanos_opt().unwrap_or_default()
    );

    assert!(registry.register_zoom_token_maintenance_scheduler(&database_url));
    assert!(!registry.register_zoom_token_maintenance_scheduler(&database_url));
}

#[test]
fn zoom_recording_sync_scheduler_registration_is_once_per_database_url() {
    let mut registry = BackgroundServiceRegistry::new();
    let database_url = format!(
        "postgres://zoom-recording-sync-test/{}",
        Utc::now().timestamp_nanos_opt().unwrap_or_default()
    );

    assert!(registry.register_zoom_recording_sync_scheduler(&database_url));
    assert!(!registry.register_zoom_recording_sync_scheduler(&database_url));
}

#[test]
fn zoom_retention_cleanup_scheduler_registration_is_once_per_database_url() {
    let mut registry = BackgroundServiceRegistry::new();
    let database_url = format!(
        "postgres://zoom-retention-cleanup-test/{}",
        Utc::now().timestamp_nanos_opt().unwrap_or_default()
    );

    assert!(registry.register_zoom_retention_cleanup_scheduler(&database_url));
    assert!(!registry.register_zoom_retention_cleanup_scheduler(&database_url));
}

#[test]
fn zoom_calendar_matching_consumer_registration_is_once_per_database_url() {
    let mut registry = BackgroundServiceRegistry::new();
    let database_url = format!(
        "postgres://zoom-calendar-matching-test/{}",
        Utc::now().timestamp_nanos_opt().unwrap_or_default()
    );

    assert!(registry.register_zoom_calendar_matching_consumer(&database_url));
    assert!(!registry.register_zoom_calendar_matching_consumer(&database_url));
}

#[test]
fn zoom_signal_detection_consumer_registration_is_once_per_database_url() {
    let mut registry = BackgroundServiceRegistry::new();
    let database_url = format!(
        "postgres://zoom-signal-detection-test/{}",
        Utc::now().timestamp_nanos_opt().unwrap_or_default()
    );

    assert!(registry.register_zoom_signal_detection_consumer(&database_url));
    assert!(!registry.register_zoom_signal_detection_consumer(&database_url));
}

#[test]
fn zoom_participant_identity_consumer_registration_is_once_per_database_url() {
    let mut registry = BackgroundServiceRegistry::new();
    let database_url = format!(
        "postgres://zoom-participant-identity-test/{}",
        Utc::now().timestamp_nanos_opt().unwrap_or_default()
    );

    assert!(registry.register_zoom_participant_identity_consumer(&database_url));
    assert!(!registry.register_zoom_participant_identity_consumer(&database_url));
}

#[test]
fn scheduler_registration_and_reconnect_backoff_are_bounded() {
    let mut registry = BackgroundServiceRegistry::new();
    let database_url = format!(
        "postgres://imap-idle-scheduler-test/{}",
        Utc::now().timestamp_nanos_opt().unwrap_or_default()
    );
    assert!(registry.register_scheduler(&database_url));
    assert!(!registry.register_scheduler(&database_url));

    let first = Duration::from_millis(reconnect_delay("mail-account", 1));
    let second = Duration::from_millis(reconnect_delay("mail-account", 2));
    let saturated = Duration::from_millis(reconnect_delay("mail-account", 100));
    assert!(first >= Duration::from_secs(5));
    assert!(second >= Duration::from_secs(10));
    assert!(saturated >= Duration::from_secs(300));
    assert!(saturated < Duration::from_secs(301));
}

#[test]
fn registration_is_per_service_and_per_database() {
    let mut registry = BackgroundServiceRegistry::new();
    assert!(registry.register(BackgroundService::MailAiPipeline, "postgres://a"));
    assert!(registry.register(BackgroundService::MailAiPipeline, "postgres://b"));
    assert!(registry.register(BackgroundService::EventOutboxDispatcher, "postgres://a"));
    assert!(!registry.register(BackgroundService::MailAiPipeline, "postgres://a"));
    assert!(registry.is_registered(BackgroundService::MailAiPipeline, "postgres://b"));
    assert!(!registry.is_registered(BackgroundService::SignalReplayDispatcher, "postgres://a"));
}

fn expected_jitter(account_id: &str, failures: u32) -> u64 {
    account_id
        .bytes()
        .fold(u64::from(failures) * 137, |hash, byte| {
            hash.wrapping_mul(31).wrapping_add(u64::from(byte))
        })
        % 1_000
}

#[test]
fn reconnect_delay_exact_values() {
    assert_eq!(reconnect_delay("mail-account", 0), 5_000 + expected_jitter("mail-account", 0));
    assert_eq!(reconnect_delay("mail-account", 1), 5_000 + expected_jitter("mail-account", 1));
    assert_eq!(reconnect_delay("mail-account", 3), 20_000 + expected_jitter("mail-account", 3));
    assert_eq!(reconnect_delay("mail-account", 6), 160_000 + expected_jitter("mail-account", 6));
    assert_eq!(reconnect_delay("mail-account", 7), 300_000 + expected_jitter("mail-account", 7));
    assert_eq!(reconnect_delay("", 2), 10_000 + 274);
    assert_eq!(reconnect_delay("a", 1), 5_000 + (137 * 31 + 97) % 1_000);
}
