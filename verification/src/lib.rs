//! Verified decision logic of the Hermes Hub backend: attachment lifecycles,
//! evidence joins, stable identifiers, provider vocabularies and the small
//! policies that the background services apply.

pub mod archive_inspection;
pub mod preview_join;
pub mod preview_lifecycle;
pub mod text;
pub mod stable_ids;
pub mod fixture_ids;
pub mod whatsapp_vocab;
pub mod json;
pub mod runtime_state;
pub mod identity_metadata;
pub mod provider_config;
pub mod media_download;
pub mod service_registry;
pub mod backoff;
pub mod relationships;
pub mod reports;
pub mod attachment_security;
pub mod preview_image;
pub mod message_refs;
pub mod api_errors;
pub mod telegram_messages;
pub mod replay_workflow;
pub mod signal_replay;
pub mod email_send;
pub mod whatsapp_documents;
pub mod command_ingest;
