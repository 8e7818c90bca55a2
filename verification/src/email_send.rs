//! How an outgoing email is sent: refused without a recipient, queued in
//! the outbox when it is scheduled or can be undone, and otherwise sent at
//! once through the Gmail API or over SMTP.

use vstd::prelude::*;
use crate::api_errors::{require_unlocked_host_vault, HostVaultError, VaultMode};
use crate::json::{json_view, JsonValue};
use crate::provider_config::gmail_send_enabled;
use crate::text::{trim_chars, trimmed_chars};

verus! {

/// Where an email goes first.
#[derive(Clone, Copy, Debug, PartialEq, Eq, Structural)]
pub enum EmailSendRoute {
    /// Into the outbox, which delivers it later.
    Outbox,
    /// Straight to the provider; the host vault must be unlocked.
    Direct,
}

/// The transport of an email sent at once.
#[derive(Clone, Copy, Debug, PartialEq, Eq, Structural)]
pub enum DirectEmailTransport {
    GmailApi,
    Smtp,
}

/// Whether every address of `recipients` is blank.
pub open spec fn all_blank(recipients: Seq<String>) -> bool {
    forall|i: int| 0 <= i < recipients.len() ==> trim_chars(#[trigger] recipients[i]@).len() == 0
}

/// The route of an email with these recipients and send options.
pub open spec fn send_route_of(
    to: Seq<String>,
    cc: Seq<String>,
    bcc: Seq<String>,
    scheduled: bool,
    undo_send_seconds: Option<i64>,
) -> Result<EmailSendRoute, Seq<char>> {
    if all_blank(to) && all_blank(cc) && all_blank(bcc) {
        Err("at least one recipient is required"@)
    } else if scheduled || match undo_send_seconds {
        Some(s) => s > 0,
        None => false,
    } {
        Ok(EmailSendRoute::Outbox)
    } else {
        Ok(EmailSendRoute::Direct)
    }
}

/// Whether every address of `recipients` is blank.
fn recipients_blank(recipients: &Vec<String>) -> (blank: bool)
    ensures
        blank == all_blank(recipients@),
{
    let mut i: usize = 0;
    while i < recipients.len()
        invariant
            i <= recipients@.len(),
            forall|j: int| 0 <= j < i ==> trim_chars(#[trigger] recipients@[j]@).len() == 0,
        decreases recipients@.len() - i,
    {
        if trimmed_chars(recipients[i].as_str()).len() != 0 {
            assert(trim_chars(recipients@[i as int]@).len() != 0);
            return false;
        }
        i = i + 1;
    }
    true
}

/// Where an email goes first: `scheduled` says whether it has a scheduled
/// send time. An email whose addresses are all blank is refused with the
/// message the API answers.
pub fn email_send_route(
    to: &Vec<String>,
    cc: &Vec<String>,
    bcc: &Vec<String>,
    scheduled: bool,
    undo_send_seconds: Option<i64>,
) -> (route: Result<EmailSendRoute, &'static str>)
    ensures
        match send_route_of(to@, cc@, bcc@, scheduled, undo_send_seconds) {
            Ok(r) => route == Ok::<EmailSendRoute, &'static str>(r),
            Err(m) => route matches Err(e) && e@ == m,
        },
{
    if recipients_blank(to) && recipients_blank(cc) && recipients_blank(bcc) {
        return Err("at least one recipient is required");
    }
    let undo = match undo_send_seconds {
        Some(s) => s > 0,
        None => false,
    };
    if scheduled || undo {
        Ok(EmailSendRoute::Outbox)
    } else {
        Ok(EmailSendRoute::Direct)
    }
}

/// The transport of an email sent at once: the Gmail API for a Gmail
/// account whose configuration enables it, SMTP otherwise.
pub fn direct_email_transport(gmail_account: bool, config: &JsonValue) -> (transport: DirectEmailTransport)
    ensures
        transport == if gmail_account && crate::json::as_bool_view(
            crate::json::lookup(json_view(*config), "gmail_send_enabled"@),
        ) == Some(true) {
            DirectEmailTransport::GmailApi
        } else {
            DirectEmailTransport::Smtp
        },
{
    if gmail_account && gmail_send_enabled(config) {
        DirectEmailTransport::GmailApi
    } else {
        DirectEmailTransport::Smtp
    }
}

/// What sending an email answers. Times are nanoseconds since the Unix
/// epoch.
#[derive(Clone, Debug, PartialEq, Eq)]
pub struct CommunicationSendResult {
    pub message_id: String,
    pub outbox_id: Option<String>,
    pub accepted: Vec<String>,
    pub accepted_recipients: Vec<String>,
    pub transport: String,
    pub status: String,
    pub scheduled_send_at: Option<i64>,
    pub undo_deadline_at: Option<i64>,
    pub failure_reason: Option<String>,
}

/// The name a transport is reported under.
pub open spec fn transport_name(transport: DirectEmailTransport) -> Seq<char> {
    match transport {
        DirectEmailTransport::GmailApi => "gmail"@,
        DirectEmailTransport::Smtp => "smtp"@,
    }
}

/// Copies `items`.
fn copy_texts(items: &Vec<String>) -> (out: Vec<String>)
    ensures
        out@.len() == items@.len(),
        forall|i: int| 0 <= i < items@.len() ==> #[trigger] out@[i]@ == items@[i]@,
{
    let mut out: Vec<String> = Vec::new();
    let mut i: usize = 0;
    while i < items.len()
        invariant
            i <= items@.len(),
            out@.len() == i,
            forall|j: int| 0 <= j < i ==> #[trigger] out@[j]@ == items@[j]@,
        decreases items@.len() - i,
    {
        out.push(items[i].clone());
        i = i + 1;
    }
    out
}

/// The answer to an email sent at once: the provider's message id and the
/// recipients it accepted, reported as sent over `transport`.
pub fn direct_send_result(
    message_id: String,
    accepted_recipients: Vec<String>,
    transport: DirectEmailTransport,
) -> (r: CommunicationSendResult)
    ensures
        r.message_id == message_id,
        r.outbox_id is None,
        r.accepted@.len() == accepted_recipients@.len(),
        forall|i: int| 0 <= i < accepted_recipients@.len() ==> #[trigger] r.accepted@[i]@
            == accepted_recipients@[i]@,
        r.accepted_recipients == accepted_recipients,
        r.transport@ == transport_name(transport),
        r.status@ == "sent"@,
        r.scheduled_send_at is None,
        r.undo_deadline_at is None,
        r.failure_reason is None,
{
    let accepted = copy_texts(&accepted_recipients);
    let transport = match transport {
        DirectEmailTransport::GmailApi => "gmail".to_owned(),
        DirectEmailTransport::Smtp => "smtp".to_owned(),
    };
    CommunicationSendResult {
        message_id,
        outbox_id: None,
        accepted,
        accepted_recipients,
        transport,
        status: "sent".to_owned(),
        scheduled_send_at: None,
        undo_deadline_at: None,
        failure_reason: None,
    }
}

/// The answer to an email queued in the outbox: the outbox item stands for
/// the message, its `to` recipients are the accepted ones, and its status
/// and times are reported.
pub fn outbox_send_result(
    outbox_id: String,
    to_recipients: Vec<String>,
    status: String,
    scheduled_send_at: Option<i64>,
    undo_deadline_at: Option<i64>,
) -> (r: CommunicationSendResult)
    ensures
        r.message_id@ == outbox_id@,
        r.outbox_id == Some(outbox_id),
        r.accepted@.len() == to_recipients@.len(),
        forall|i: int| 0 <= i < to_recipients@.len() ==> #[trigger] r.accepted@[i]@ == to_recipients@[i]@,
        r.accepted_recipients == to_recipients,
        r.transport@ == "outbox"@,
        r.status == status,
        r.scheduled_send_at == scheduled_send_at,
        r.undo_deadline_at == undo_deadline_at,
        r.failure_reason is None,
{
    let accepted = copy_texts(&to_recipients);
    CommunicationSendResult {
        message_id: outbox_id.clone(),
        outbox_id: Some(outbox_id),
        accepted,
        accepted_recipients: to_recipients,
        transport: "outbox".to_owned(),
        status,
        scheduled_send_at,
        undo_deadline_at,
        failure_reason: None,
    }
}

/// Why an email is not sent.
#[derive(Clone, Copy, Debug, PartialEq, Eq)]
pub enum EmailSendError {
    /// The request is refused with this message.
    InvalidCommunicationQuery(&'static str),
    /// The host vault is not unlocked.
    HostVault(HostVaultError),
}

/// What sending an email does next.
#[derive(Clone, Copy, Debug, PartialEq, Eq, Structural)]
pub enum EmailSendAction {
    /// Queue the email in the outbox; the vault is not consulted.
    QueueInOutbox,
    /// Read the host vault's status, then decide again with it.
    ReadVaultStatus,
    /// Send the email at once over this transport.
    SendNow(DirectEmailTransport),
}

/// The transport of an email sent at once from an account.
pub open spec fn direct_transport_of(gmail_account: bool, config: JsonValue) -> DirectEmailTransport {
    if gmail_account && crate::json::as_bool_view(crate::json::lookup(json_view(config), "gmail_send_enabled"@))
        == Some(true) {
        DirectEmailTransport::GmailApi
    } else {
        DirectEmailTransport::Smtp
    }
}

/// What sending an email does next, given the vault status once it has
/// been read (`None` before): refuse an email without a recipient; queue a
/// scheduled or undoable one in the outbox without consulting the vault;
/// otherwise read the vault, refuse unless it is unlocked, and send over
/// the Gmail API or SMTP.
pub open spec fn email_send_next_of(
    to: Seq<String>,
    cc: Seq<String>,
    bcc: Seq<String>,
    scheduled: bool,
    undo_send_seconds: Option<i64>,
    gmail_account: bool,
    config: JsonValue,
    vault: Option<VaultMode>,
) -> Result<EmailSendAction, EmailSendError> {
    match send_route_of(to, cc, bcc, scheduled, undo_send_seconds) {
        Err(_) => Err(EmailSendError::InvalidCommunicationQuery("at least one recipient is required")),
        Ok(EmailSendRoute::Outbox) => Ok(EmailSendAction::QueueInOutbox),
        Ok(EmailSendRoute::Direct) => match vault {
            None => Ok(EmailSendAction::ReadVaultStatus),
            Some(VaultMode::Unlocked) => Ok(EmailSendAction::SendNow(direct_transport_of(gmail_account, config))),
            Some(VaultMode::Locked) => Err(EmailSendError::HostVault(HostVaultError::Locked)),
            Some(VaultMode::Uninitialized) => Err(EmailSendError::HostVault(HostVaultError::Uninitialized)),
        },
    }
}

/// The next step of sending an email; see `email_send_next_of`.
pub fn email_send_next(
    to: &Vec<String>,
    cc: &Vec<String>,
    bcc: &Vec<String>,
    scheduled: bool,
    undo_send_seconds: Option<i64>,
    gmail_account: bool,
    config: &JsonValue,
    vault: Option<VaultMode>,
) -> (next: Result<EmailSendAction, EmailSendError>)
    ensures
        match (next, email_send_next_of(to@, cc@, bcc@, scheduled, undo_send_seconds, gmail_account, *config, vault)) {
            (Ok(a), Ok(b)) => a == b,
            (Err(EmailSendError::InvalidCommunicationQuery(m)), Err(EmailSendError::InvalidCommunicationQuery(n))) =>
                m@ == n@,
            (Err(EmailSendError::HostVault(e)), Err(EmailSendError::HostVault(f))) => e == f,
            _ => false,
        },
{
    let route = match email_send_route(to, cc, bcc, scheduled, undo_send_seconds) {
        Ok(r) => r,
        Err(_) => {
            return Err(EmailSendError::InvalidCommunicationQuery("at least one recipient is required"));
        },
    };
    match route {
        EmailSendRoute::Outbox => Ok(EmailSendAction::QueueInOutbox),
        EmailSendRoute::Direct => match vault {
            None => Ok(EmailSendAction::ReadVaultStatus),
            Some(mode) => match require_unlocked_host_vault(mode) {
                Ok(()) => Ok(EmailSendAction::SendNow(direct_email_transport(gmail_account, config))),
                Err(e) => Err(EmailSendError::HostVault(e)),
            },
        },
    }
}

/// A scheduled or undoable email is queued whatever the vault's state and
/// the account's transport; an email sent at once is never sent before the
/// vault has been read and found unlocked.
pub proof fn lemma_only_direct_sends_need_the_vault(
    to: Seq<String>,
    cc: Seq<String>,
    bcc: Seq<String>,
    scheduled: bool,
    undo_send_seconds: Option<i64>,
    gmail_account: bool,
    config: JsonValue,
    vault: Option<VaultMode>,
    other_vault: Option<VaultMode>,
)
    ensures
        send_route_of(to, cc, bcc, scheduled, undo_send_seconds) == Ok::<EmailSendRoute, Seq<char>>(
            EmailSendRoute::Outbox,
        ) ==> email_send_next_of(to, cc, bcc, scheduled, undo_send_seconds, gmail_account, config, vault)
            == email_send_next_of(to, cc, bcc, scheduled, undo_send_seconds, gmail_account, config, other_vault),
        email_send_next_of(to, cc, bcc, scheduled, undo_send_seconds, gmail_account, config, vault) matches Ok(
            EmailSendAction::SendNow(_),
        ) ==> vault == Some(VaultMode::Unlocked),
{
}

/// Law: an email is refused for lack of recipients exactly when every
/// address of its To, Cc and Bcc lists is blank once trimmed; any non-blank
/// address in any of the three lists makes it sendable. A sendable email is
/// queued in the outbox exactly when it is scheduled or has a positive undo
/// delay, and is sent at once otherwise.
pub proof fn lemma_recipients_and_route(
    to: Seq<String>,
    cc: Seq<String>,
    bcc: Seq<String>,
    scheduled: bool,
    undo_send_seconds: Option<i64>,
)
    ensures
        send_route_of(to, cc, bcc, scheduled, undo_send_seconds) is Err <==> (forall|i: int|
            0 <= i < to.len() ==> trim_chars(#[trigger] to[i]@).len() == 0) && (forall|i: int|
            0 <= i < cc.len() ==> trim_chars(#[trigger] cc[i]@).len() == 0) && (forall|i: int|
            0 <= i < bcc.len() ==> trim_chars(#[trigger] bcc[i]@).len() == 0),
        send_route_of(to, cc, bcc, scheduled, undo_send_seconds) is Ok ==> (send_route_of(
            to,
            cc,
            bcc,
            scheduled,
            undo_send_seconds,
        ) == Ok::<EmailSendRoute, Seq<char>>(EmailSendRoute::Outbox) <==> (scheduled || (undo_send_seconds is Some
            && undo_send_seconds->0 > 0))),
{
}

} // verus!
