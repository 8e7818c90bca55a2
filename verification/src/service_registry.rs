//! The registry that starts each background service at most once per
//! database.
//!
//! The registry is a vector of (service, database URL) pairs whose view is
//! a set. A `HashSet<String>` of database URLs would only be specified by
//! vstd for key types that obey its key model (`obeys_key_model`), which it
//! states for integers and `bool` but not for `String`; establishing it for
//! a text key would take an assumption. The vector's lookups are verified
//! instead, and its view is exactly the set of registrations.
use vstd::prelude::*;
use crate::text::text_equal;

verus! {

/// A background service that runs once per database.
#[derive(Clone, Copy, Debug, PartialEq, Eq, Structural)]
pub enum BackgroundService {
    TelegramCommandExecutor,
    TelegramRuntimeReconciliation,
    WhatsappRuntimeEventConsumer,
    WhatsappProviderObservationReconciliationConsumer,
    CommunicationProviderObservationConsumer,
    PersonaDerivedEvidenceConsumer,
    ZoomSignalDetectionConsumer,
    ZoomCalendarMatchingConsumer,
    ZoomParticipantIdentityConsumer,
    YandexTelemostRetentionCleanupScheduler,
    YandexTelemostCalendarMatchingConsumer,
    PersonaIdentityReviewInboxConsumer,
    ProjectLinkReviewEffectsConsumer,
    RealtimeConversationTranscriptExecutionConsumer,
    RealtimeConversationTranscriptProjectionConsumer,
    SignalHubRawSignalConsumer,
    EventOutboxDispatcher,
    SignalReplayDispatcher,
    MailBackgroundSyncScheduler,
    MailAttachmentScanWorker,
    AddressBookSyncScheduler,
    MailOutboxDeliveryScheduler,
    MailProviderCommandScheduler,
    MailAiPipeline,
    ZoomTokenMaintenanceScheduler,
    ZoomRecordingSyncScheduler,
    ZoomRetentionCleanupScheduler,
    MailImapIdleScheduler,
}

/// The services started so far, each with the database it serves.
pub struct BackgroundServiceRegistry {
    registered: Vec<(BackgroundService, String)>,
}

impl View for BackgroundServiceRegistry {
    type V = Set<(BackgroundService, Seq<char>)>;

    closed spec fn view(&self) -> Set<(BackgroundService, Seq<char>)> {
        Set::new(
            |entry: (BackgroundService, Seq<char>)|
                exists|i: int|
                    0 <= i < self.registered@.len() && #[trigger] self.registered@[i].0 == entry.0
                        && self.registered@[i].1@ == entry.1,
        )
    }
}

impl BackgroundServiceRegistry {
    /// A registry in which nothing is registered.
    pub fn new() -> (registry: Self)
        ensures
            registry@ == Set::<(BackgroundService, Seq<char>)>::empty(),
    {
        let registry = BackgroundServiceRegistry { registered: Vec::new() };
        assert(registry@ =~= Set::<(BackgroundService, Seq<char>)>::empty());
        registry
    }

    /// Whether `service` is registered for `database_url`.
    pub fn is_registered(&self, service: BackgroundService, database_url: &str) -> (found: bool)
        ensures
            found == self@.contains((service, database_url@)),
    {
        let mut i: usize = 0;
        while i < self.registered.len()
            invariant
                i <= self.registered@.len(),
                forall|j: int|
                    0 <= j < i ==> !(#[trigger] self.registered@[j].0 == service
                        && self.registered@[j].1@ == database_url@),
            decreases self.registered@.len() - i,
        {
            if self.registered[i].0 == service && text_equal(
                self.registered[i].1.as_str(),
                database_url,
            ) {
                return true;
            }
            i = i + 1;
        }
        false
    }

    /// Registers `service` for `database_url`: `true` when this is the first
    /// registration of that service for that database, `false` when it was
    /// registered already.
    pub fn register(&mut self, service: BackgroundService, database_url: &str) -> (first: bool)
        ensures
            first == !old(self)@.contains((service, database_url@)),
            final(self)@ == old(self)@.insert((service, database_url@)),
    {
        if self.is_registered(service, database_url) {
            assert(self@.insert((service, database_url@)) =~= self@);
            return false;
        }
        let ghost before = self.registered@;
        self.registered.push((service, database_url.to_owned()));
        proof {
            assert forall|entry: (BackgroundService, Seq<char>)|
                #[trigger] self@.contains(entry) == old(self)@.insert((service, database_url@)).contains(
                    entry,
                ) by {
                if old(self)@.contains(entry) {
                    let i = choose|i: int|
                        0 <= i < before.len() && #[trigger] before[i].0 == entry.0 && before[i].1@
                            == entry.1;
                    assert(self.registered@[i] == before[i]);
                }
                if self@.contains(entry) {
                    let i = choose|i: int|
                        0 <= i < self.registered@.len() && #[trigger] self.registered@[i].0
                            == entry.0 && self.registered@[i].1@ == entry.1;
                    if i < before.len() {
                        assert(self.registered@[i] == before[i]);
                    }
                }
                if entry == (service, database_url@) {
                    assert(self.registered@[before.len() as int].0 == service);
                }
            }
            assert(self@ =~= old(self)@.insert((service, database_url@)));
        }
        true
    }

    /// Registers the telegram command executor for `database_url`; `true` only the first time.
    pub fn register_telegram_command_executor(&mut self, database_url: &str) -> (first: bool)
        ensures
            first == !old(self)@.contains((BackgroundService::TelegramCommandExecutor, database_url@)),
            final(self)@ == old(self)@.insert((BackgroundService::TelegramCommandExecutor, database_url@)),
    {
        self.register(BackgroundService::TelegramCommandExecutor, database_url)
    }

    /// Registers the telegram runtime reconciliation for `database_url`; `true` only the first time.
    pub fn register_telegram_runtime_reconciliation(&mut self, database_url: &str) -> (first: bool)
        ensures
            first == !old(self)@.contains((BackgroundService::TelegramRuntimeReconciliation, database_url@)),
            final(self)@ == old(self)@.insert((BackgroundService::TelegramRuntimeReconciliation, database_url@)),
    {
        self.register(BackgroundService::TelegramRuntimeReconciliation, database_url)
    }

    /// Registers the whatsapp runtime event consumer for `database_url`; `true` only the first time.
    pub fn register_whatsapp_runtime_event_consumer(&mut self, database_url: &str) -> (first: bool)
        ensures
            first == !old(self)@.contains((BackgroundService::WhatsappRuntimeEventConsumer, database_url@)),
            final(self)@ == old(self)@.insert((BackgroundService::WhatsappRuntimeEventConsumer, database_url@)),
    {
        self.register(BackgroundService::WhatsappRuntimeEventConsumer, database_url)
    }

    /// Registers the whatsapp provider observation reconciliation consumer for `database_url`; `true` only the first time.
    pub fn register_whatsapp_provider_observation_reconciliation_consumer(&mut self, database_url: &str) -> (first: bool)
        ensures
            first == !old(self)@.contains((BackgroundService::WhatsappProviderObservationReconciliationConsumer, database_url@)),
            final(self)@ == old(self)@.insert((BackgroundService::WhatsappProviderObservationReconciliationConsumer, database_url@)),
    {
        self.register(BackgroundService::WhatsappProviderObservationReconciliationConsumer, database_url)
    }

    /// Registers the communication provider observation consumer for `database_url`; `true` only the first time.
    pub fn register_communication_provider_observation_consumer(&mut self, database_url: &str) -> (first: bool)
        ensures
            first == !old(self)@.contains((BackgroundService::CommunicationProviderObservationConsumer, database_url@)),
            final(self)@ == old(self)@.insert((BackgroundService::CommunicationProviderObservationConsumer, database_url@)),
    {
        self.register(BackgroundService::CommunicationProviderObservationConsumer, database_url)
    }

    /// Registers the persona derived evidence consumer for `database_url`; `true` only the first time.
    pub fn register_persona_derived_evidence_consumer(&mut self, database_url: &str) -> (first: bool)
        ensures
            first == !old(self)@.contains((BackgroundService::PersonaDerivedEvidenceConsumer, database_url@)),
            final(self)@ == old(self)@.insert((BackgroundService::PersonaDerivedEvidenceConsumer, database_url@)),
    {
        self.register(BackgroundService::PersonaDerivedEvidenceConsumer, database_url)
    }

    /// Registers the zoom signal detection consumer for `database_url`; `true` only the first time.
    pub fn register_zoom_signal_detection_consumer(&mut self, database_url: &str) -> (first: bool)
        ensures
            first == !old(self)@.contains((BackgroundService::ZoomSignalDetectionConsumer, database_url@)),
            final(self)@ == old(self)@.insert((BackgroundService::ZoomSignalDetectionConsumer, database_url@)),
    {
        self.register(BackgroundService::ZoomSignalDetectionConsumer, database_url)
    }

    /// Registers the zoom calendar matching consumer for `database_url`; `true` only the first time.
    pub fn register_zoom_calendar_matching_consumer(&mut self, database_url: &str) -> (first: bool)
        ensures
            first == !old(self)@.contains((BackgroundService::ZoomCalendarMatchingConsumer, database_url@)),
            final(self)@ == old(self)@.insert((BackgroundService::ZoomCalendarMatchingConsumer, database_url@)),
    {
        self.register(BackgroundService::ZoomCalendarMatchingConsumer, database_url)
    }

    /// Registers the zoom participant identity consumer for `database_url`; `true` only the first time.
    pub fn register_zoom_participant_identity_consumer(&mut self, database_url: &str) -> (first: bool)
        ensures
            first == !old(self)@.contains((BackgroundService::ZoomParticipantIdentityConsumer, database_url@)),
            final(self)@ == old(self)@.insert((BackgroundService::ZoomParticipantIdentityConsumer, database_url@)),
    {
        self.register(BackgroundService::ZoomParticipantIdentityConsumer, database_url)
    }

    /// Registers the yandex telemost retention cleanup scheduler for `database_url`; `true` only the first time.
    pub fn register_yandex_telemost_retention_cleanup_scheduler(&mut self, database_url: &str) -> (first: bool)
        ensures
            first == !old(self)@.contains((BackgroundService::YandexTelemostRetentionCleanupScheduler, database_url@)),
            final(self)@ == old(self)@.insert((BackgroundService::YandexTelemostRetentionCleanupScheduler, database_url@)),
    {
        self.register(BackgroundService::YandexTelemostRetentionCleanupScheduler, database_url)
    }

    /// Registers the yandex telemost calendar matching consumer for `database_url`; `true` only the first time.
    pub fn register_yandex_telemost_calendar_matching_consumer(&mut self, database_url: &str) -> (first: bool)
        ensures
            first == !old(self)@.contains((BackgroundService::YandexTelemostCalendarMatchingConsumer, database_url@)),
            final(self)@ == old(self)@.insert((BackgroundService::YandexTelemostCalendarMatchingConsumer, database_url@)),
    {
        self.register(BackgroundService::YandexTelemostCalendarMatchingConsumer, database_url)
    }

    /// Registers the persona identity review inbox consumer for `database_url`; `true` only the first time.
    pub fn register_persona_identity_review_inbox_consumer(&mut self, database_url: &str) -> (first: bool)
        ensures
            first == !old(self)@.contains((BackgroundService::PersonaIdentityReviewInboxConsumer, database_url@)),
            final(self)@ == old(self)@.insert((BackgroundService::PersonaIdentityReviewInboxConsumer, database_url@)),
    {
        self.register(BackgroundService::PersonaIdentityReviewInboxConsumer, database_url)
    }

    /// Registers the project link review effects consumer for `database_url`; `true` only the first time.
    pub fn register_project_link_review_effects_consumer(&mut self, database_url: &str) -> (first: bool)
        ensures
            first == !old(self)@.contains((BackgroundService::ProjectLinkReviewEffectsConsumer, database_url@)),
            final(self)@ == old(self)@.insert((BackgroundService::ProjectLinkReviewEffectsConsumer, database_url@)),
    {
        self.register(BackgroundService::ProjectLinkReviewEffectsConsumer, database_url)
    }

    /// Registers the realtime conversation transcript execution consumer for `database_url`; `true` only the first time.
    pub fn register_realtime_conversation_transcript_execution_consumer(&mut self, database_url: &str) -> (first: bool)
        ensures
            first == !old(self)@.contains((BackgroundService::RealtimeConversationTranscriptExecutionConsumer, database_url@)),
            final(self)@ == old(self)@.insert((BackgroundService::RealtimeConversationTranscriptExecutionConsumer, database_url@)),
    {
        self.register(BackgroundService::RealtimeConversationTranscriptExecutionConsumer, database_url)
    }

    /// Registers the realtime conversation transcript projection consumer for `database_url`; `true` only the first time.
    pub fn register_realtime_conversation_transcript_projection_consumer(&mut self, database_url: &str) -> (first: bool)
        ensures
            first == !old(self)@.contains((BackgroundService::RealtimeConversationTranscriptProjectionConsumer, database_url@)),
            final(self)@ == old(self)@.insert((BackgroundService::RealtimeConversationTranscriptProjectionConsumer, database_url@)),
    {
        self.register(BackgroundService::RealtimeConversationTranscriptProjectionConsumer, database_url)
    }

    /// Registers the signal hub raw signal consumer for `database_url`; `true` only the first time.
    pub fn register_signal_hub_raw_signal_consumer(&mut self, database_url: &str) -> (first: bool)
        ensures
            first == !old(self)@.contains((BackgroundService::SignalHubRawSignalConsumer, database_url@)),
            final(self)@ == old(self)@.insert((BackgroundService::SignalHubRawSignalConsumer, database_url@)),
    {
        self.register(BackgroundService::SignalHubRawSignalConsumer, database_url)
    }

    /// Registers the event outbox dispatcher for `database_url`; `true` only the first time.
    pub fn register_event_outbox_dispatcher(&mut self, database_url: &str) -> (first: bool)
        ensures
            first == !old(self)@.contains((BackgroundService::EventOutboxDispatcher, database_url@)),
            final(self)@ == old(self)@.insert((BackgroundService::EventOutboxDispatcher, database_url@)),
    {
        self.register(BackgroundService::EventOutboxDispatcher, database_url)
    }

    /// Registers the signal replay dispatcher for `database_url`; `true` only the first time.
    pub fn register_signal_replay_dispatcher(&mut self, database_url: &str) -> (first: bool)
        ensures
            first == !old(self)@.contains((BackgroundService::SignalReplayDispatcher, database_url@)),
            final(self)@ == old(self)@.insert((BackgroundService::SignalReplayDispatcher, database_url@)),
    {
        self.register(BackgroundService::SignalReplayDispatcher, database_url)
    }

    /// Registers the mail background sync scheduler for `database_url`; `true` only the first time.
    pub fn register_mail_background_sync_scheduler(&mut self, database_url: &str) -> (first: bool)
        ensures
            first == !old(self)@.contains((BackgroundService::MailBackgroundSyncScheduler, database_url@)),
            final(self)@ == old(self)@.insert((BackgroundService::MailBackgroundSyncScheduler, database_url@)),
    {
        self.register(BackgroundService::MailBackgroundSyncScheduler, database_url)
    }

    /// Registers the mail attachment scan worker for `database_url`; `true` only the first time.
    pub fn register_mail_attachment_scan_worker(&mut self, database_url: &str) -> (first: bool)
        ensures
            first == !old(self)@.contains((BackgroundService::MailAttachmentScanWorker, database_url@)),
            final(self)@ == old(self)@.insert((BackgroundService::MailAttachmentScanWorker, database_url@)),
    {
        self.register(BackgroundService::MailAttachmentScanWorker, database_url)
    }

    /// Registers the address book sync scheduler for `database_url`; `true` only the first time.
    pub fn register_address_book_sync_scheduler(&mut self, database_url: &str) -> (first: bool)
        ensures
            first == !old(self)@.contains((BackgroundService::AddressBookSyncScheduler, database_url@)),
            final(self)@ == old(self)@.insert((BackgroundService::AddressBookSyncScheduler, database_url@)),
    {
        self.register(BackgroundService::AddressBookSyncScheduler, database_url)
    }

    /// Registers the mail outbox delivery scheduler for `database_url`; `true` only the first time.
    pub fn register_mail_outbox_delivery_scheduler(&mut self, database_url: &str) -> (first: bool)
        ensures
            first == !old(self)@.contains((BackgroundService::MailOutboxDeliveryScheduler, database_url@)),
            final(self)@ == old(self)@.insert((BackgroundService::MailOutboxDeliveryScheduler, database_url@)),
    {
        self.register(BackgroundService::MailOutboxDeliveryScheduler, database_url)
    }

    /// Registers the mail provider command scheduler for `database_url`; `true` only the first time.
    pub fn register_mail_provider_command_scheduler(&mut self, database_url: &str) -> (first: bool)
        ensures
            first == !old(self)@.contains((BackgroundService::MailProviderCommandScheduler, database_url@)),
            final(self)@ == old(self)@.insert((BackgroundService::MailProviderCommandScheduler, database_url@)),
    {
        self.register(BackgroundService::MailProviderCommandScheduler, database_url)
    }

    /// Registers the mail ai pipeline for `database_url`; `true` only the first time.
    pub fn register_mail_ai_pipeline(&mut self, database_url: &str) -> (first: bool)
        ensures
            first == !old(self)@.contains((BackgroundService::MailAiPipeline, database_url@)),
            final(self)@ == old(self)@.insert((BackgroundService::MailAiPipeline, database_url@)),
    {
        self.register(BackgroundService::MailAiPipeline, database_url)
    }

    /// Registers the zoom token maintenance scheduler for `database_url`; `true` only the first time.
    pub fn register_zoom_token_maintenance_scheduler(&mut self, database_url: &str) -> (first: bool)
        ensures
            first == !old(self)@.contains((BackgroundService::ZoomTokenMaintenanceScheduler, database_url@)),
            final(self)@ == old(self)@.insert((BackgroundService::ZoomTokenMaintenanceScheduler, database_url@)),
    {
        self.register(BackgroundService::ZoomTokenMaintenanceScheduler, database_url)
    }

    /// Registers the zoom recording sync scheduler for `database_url`; `true` only the first time.
    pub fn register_zoom_recording_sync_scheduler(&mut self, database_url: &str) -> (first: bool)
        ensures
            first == !old(self)@.contains((BackgroundService::ZoomRecordingSyncScheduler, database_url@)),
            final(self)@ == old(self)@.insert((BackgroundService::ZoomRecordingSyncScheduler, database_url@)),
    {
        self.register(BackgroundService::ZoomRecordingSyncScheduler, database_url)
    }

    /// Registers the zoom retention cleanup scheduler for `database_url`; `true` only the first time.
    pub fn register_zoom_retention_cleanup_scheduler(&mut self, database_url: &str) -> (first: bool)
        ensures
            first == !old(self)@.contains((BackgroundService::ZoomRetentionCleanupScheduler, database_url@)),
            final(self)@ == old(self)@.insert((BackgroundService::ZoomRetentionCleanupScheduler, database_url@)),
    {
        self.register(BackgroundService::ZoomRetentionCleanupScheduler, database_url)
    }

    /// Registers the mail imap idle scheduler for `database_url`; `true` only the first time.
    pub fn register_scheduler(&mut self, database_url: &str) -> (first: bool)
        ensures
            first == !old(self)@.contains((BackgroundService::MailImapIdleScheduler, database_url@)),
            final(self)@ == old(self)@.insert((BackgroundService::MailImapIdleScheduler, database_url@)),
    {
        self.register(BackgroundService::MailImapIdleScheduler, database_url)
    }
}

/// Law: a service is registered at most once per database. Registering it
/// again for the same database is refused, and registering one service
/// never registers another.
pub proof fn lemma_registration_is_once_per_database(
    registered: Set<(BackgroundService, Seq<char>)>,
    service: BackgroundService,
    other: BackgroundService,
    database_url: Seq<char>,
)
    requires
        other != service,
    ensures
        registered.insert((service, database_url)).contains((service, database_url)),
        registered.insert((service, database_url)).contains((other, database_url))
            == registered.contains((other, database_url)),
{
}

} // verus!
