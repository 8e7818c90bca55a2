use hermes_hub::email_send::{
    direct_email_transport, direct_send_result, email_send_route, outbox_send_result,
    DirectEmailTransport, EmailSendRoute,
};
use hermes_hub::api_errors::{HostVaultError, VaultMode};
use hermes_hub::email_send::{email_send_next, EmailSendAction, EmailSendError};
use hermes_hub::json::JsonValue;

fn addresses(values: &[&str]) -> Vec<String> {
    values.iter().map(|v| (*v).to_owned()).collect()
}

#[test]
fn an_email_needs_a_recipient() {
    let none = addresses(&[]);
    assert_eq!(
        email_send_route(&addresses(&["  "]), &none, &addresses(&["\t"]), false, None),
        Err("at least one recipient is required")
    );
    assert_eq!(
        email_send_route(&none, &none, &none, true, Some(30)),
        Err("at least one recipient is required")
    );
    assert_eq!(
        email_send_route(&none, &none, &addresses(&["b@example.com"]), false, None),
        Ok(EmailSendRoute::Direct)
    );
}

#[test]
fn scheduled_or_undoable_email_goes_to_the_outbox() {
    let to = addresses(&["a@example.com"]);
    let none = addresses(&[]);
    assert_eq!(email_send_route(&to, &none, &none, true, None), Ok(EmailSendRoute::Outbox));
    assert_eq!(email_send_route(&to, &none, &none, false, Some(10)), Ok(EmailSendRoute::Outbox));
    assert_eq!(email_send_route(&to, &none, &none, false, Some(0)), Ok(EmailSendRoute::Direct));
    assert_eq!(email_send_route(&to, &none, &none, false, Some(-3)), Ok(EmailSendRoute::Direct));
}

#[test]
fn gmail_api_is_used_only_when_enabled_for_a_gmail_account() {
    let enabled = JsonValue::Object(vec![("gmail_send_enabled".to_owned(), JsonValue::Bool(true))]);
    let disabled = JsonValue::Object(vec![("gmail_send_enabled".to_owned(), JsonValue::Bool(false))]);
    assert_eq!(direct_email_transport(true, &enabled), DirectEmailTransport::GmailApi);
    assert_eq!(direct_email_transport(true, &disabled), DirectEmailTransport::Smtp);
    assert_eq!(direct_email_transport(false, &enabled), DirectEmailTransport::Smtp);
    assert_eq!(direct_email_transport(true, &JsonValue::Null), DirectEmailTransport::Smtp);
}

#[test]
fn send_results_report_transport_and_status() {
    let sent = direct_send_result("mid-1".to_owned(), addresses(&["a@example.com"]), DirectEmailTransport::GmailApi);
    assert_eq!(sent.message_id, "mid-1");
    assert_eq!(sent.outbox_id, None);
    assert_eq!(sent.accepted, addresses(&["a@example.com"]));
    assert_eq!(sent.accepted_recipients, addresses(&["a@example.com"]));
    assert_eq!(sent.transport, "gmail");
    assert_eq!(sent.status, "sent");
    assert_eq!(sent.scheduled_send_at, None);
    let smtp = direct_send_result("mid-2".to_owned(), Vec::new(), DirectEmailTransport::Smtp);
    assert_eq!(smtp.transport, "smtp");
    let queued = outbox_send_result("out-1".to_owned(), addresses(&["b@example.com"]), "scheduled".to_owned(), Some(5), Some(7));
    assert_eq!(queued.message_id, "out-1");
    assert_eq!(queued.outbox_id.as_deref(), Some("out-1"));
    assert_eq!(queued.accepted, addresses(&["b@example.com"]));
    assert_eq!(queued.transport, "outbox");
    assert_eq!(queued.status, "scheduled");
    assert_eq!(queued.scheduled_send_at, Some(5));
    assert_eq!(queued.undo_deadline_at, Some(7));
    assert_eq!(queued.failure_reason, None);
}

#[test]
fn only_emails_sent_at_once_consult_the_vault() {
    let to = addresses(&["a@example.com"]);
    let none = addresses(&[]);
    let gmail = JsonValue::Object(vec![("gmail_send_enabled".to_owned(), JsonValue::Bool(true))]);
    assert_eq!(
        email_send_next(&to, &none, &none, true, None, true, &gmail, Some(VaultMode::Locked)),
        Ok(EmailSendAction::QueueInOutbox)
    );
    assert_eq!(
        email_send_next(&to, &none, &none, false, Some(5), false, &gmail, None),
        Ok(EmailSendAction::QueueInOutbox)
    );
    assert_eq!(
        email_send_next(&to, &none, &none, false, None, true, &gmail, None),
        Ok(EmailSendAction::ReadVaultStatus)
    );
    assert_eq!(
        email_send_next(&to, &none, &none, false, None, true, &gmail, Some(VaultMode::Locked)),
        Err(EmailSendError::HostVault(HostVaultError::Locked))
    );
    assert_eq!(
        email_send_next(&to, &none, &none, false, None, true, &gmail, Some(VaultMode::Uninitialized)),
        Err(EmailSendError::HostVault(HostVaultError::Uninitialized))
    );
    assert_eq!(
        email_send_next(&to, &none, &none, false, None, true, &gmail, Some(VaultMode::Unlocked)),
        Ok(EmailSendAction::SendNow(DirectEmailTransport::GmailApi))
    );
    assert_eq!(
        email_send_next(&to, &none, &none, false, None, false, &gmail, Some(VaultMode::Unlocked)),
        Ok(EmailSendAction::SendNow(DirectEmailTransport::Smtp))
    );
    assert_eq!(
        email_send_next(&none, &none, &none, true, None, true, &gmail, Some(VaultMode::Unlocked)),
        Err(EmailSendError::InvalidCommunicationQuery("at least one recipient is required"))
    );
}
