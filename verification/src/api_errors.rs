//! How the API and the runtimes report failures: the host vault gate, the
//! public messages of outbox delivery failures, and the codes of native
//! runtime sink errors.

use vstd::prelude::*;
use crate::text::text_equal;

verus! {

/// The state of the host vault.
#[derive(Clone, Copy, Debug, PartialEq, Eq, Structural)]
pub enum VaultMode {
    Unlocked,
    Locked,
    Uninitialized,
}

/// Why the host vault refuses access.
#[derive(Clone, Copy, Debug, PartialEq, Eq, Structural)]
pub enum HostVaultError {
    Locked,
    Uninitialized,
}

/// Whether background work may run: only with an unlocked vault; a vault
/// whose status cannot be read (`None`) counts as closed.
pub fn host_vault_is_unlocked(status: Option<VaultMode>) -> (unlocked: bool)
    ensures
        unlocked == (status == Some(VaultMode::Unlocked)),
{
    match status {
        Some(VaultMode::Unlocked) => true,
        _ => false,
    }
}

/// Admits a request only while the host vault is unlocked.
pub fn require_unlocked_host_vault(mode: VaultMode) -> (result: Result<(), HostVaultError>)
    ensures
        result == match mode {
            VaultMode::Unlocked => Ok::<(), HostVaultError>(()),
            VaultMode::Locked => Err(HostVaultError::Locked),
            VaultMode::Uninitialized => Err(HostVaultError::Uninitialized),
        },
{
    match mode {
        VaultMode::Unlocked => Ok(()),
        VaultMode::Locked => Err(HostVaultError::Locked),
        VaultMode::Uninitialized => Err(HostVaultError::Uninitialized),
    }
}

/// The public message an outbox delivery failure is answered with: the
/// failure's own public message when it is one of the known ones, otherwise
/// that the SMTP configuration is unavailable.
pub open spec fn outbox_delivery_message_of(public_message: Seq<char>) -> Seq<char> {
    if public_message == "Gmail send is unavailable until OAuth send scopes are configured"@ {
        "Gmail send is unavailable until OAuth send scopes are configured"@
    } else if public_message == "provider does not support SMTP send"@ {
        "provider does not support SMTP send"@
    } else if public_message == "provider account config must be a JSON object"@ {
        "provider account config must be a JSON object"@
    } else if public_message == "SMTP port is unavailable for this account"@ {
        "SMTP port is unavailable for this account"@
    } else {
        "SMTP config is unavailable for this account"@
    }
}

/// The message of the invalid communication query that answers an outbox
/// delivery failure with `public_message`.
pub fn outbox_delivery_api_message(public_message: &str) -> (message: &'static str)
    ensures
        message@ == outbox_delivery_message_of(public_message@),
{
    if text_equal(public_message, "Gmail send is unavailable until OAuth send scopes are configured") {
        "Gmail send is unavailable until OAuth send scopes are configured"
    } else if text_equal(public_message, "provider does not support SMTP send") {
        "provider does not support SMTP send"
    } else if text_equal(public_message, "provider account config must be a JSON object") {
        "provider account config must be a JSON object"
    } else if text_equal(public_message, "SMTP port is unavailable for this account") {
        "SMTP port is unavailable for this account"
    } else {
        "SMTP config is unavailable for this account"
    }
}

/// Where a native runtime signal ingest failed.
#[derive(Clone, Copy, Debug, PartialEq, Eq, Structural)]
pub enum WhatsappRuntimeSignalIngestFailure {
    /// Appending the raw communication record failed.
    Communication,
    /// Dispatching to the Signal Hub failed.
    SignalHub,
    /// The Signal Hub controls blocked the signal.
    SignalControlBlocked,
    /// The accepted event had another kind than expected.
    AcceptedEventKindMismatch,
}

/// The code of the runtime sink error that reports a failure.
pub open spec fn sink_error_code_of(failure: WhatsappRuntimeSignalIngestFailure) -> Seq<char> {
    match failure {
        WhatsappRuntimeSignalIngestFailure::Communication => "native_md_raw_record_append_failed"@,
        WhatsappRuntimeSignalIngestFailure::SignalHub => "native_md_signal_hub_dispatch_failed"@,
        WhatsappRuntimeSignalIngestFailure::SignalControlBlocked => "native_md_signal_hub_control_blocked"@,
        WhatsappRuntimeSignalIngestFailure::AcceptedEventKindMismatch => "native_md_signal_hub_event_kind_mismatch"@,
    }
}

impl WhatsappRuntimeSignalIngestFailure {
    /// The code of the runtime sink error that reports this failure.
    pub fn into_sink_error(self) -> (code: &'static str)
        ensures
            code@ == sink_error_code_of(self),
    {
        match self {
            WhatsappRuntimeSignalIngestFailure::Communication => "native_md_raw_record_append_failed",
            WhatsappRuntimeSignalIngestFailure::SignalHub => "native_md_signal_hub_dispatch_failed",
            WhatsappRuntimeSignalIngestFailure::SignalControlBlocked => "native_md_signal_hub_control_blocked",
            WhatsappRuntimeSignalIngestFailure::AcceptedEventKindMismatch => "native_md_signal_hub_event_kind_mismatch",
        }
    }
}

/// The runtime name under which the WhatsApp command executor reports.
pub fn command_executor_runtime_name() -> (name: &'static str)
    ensures
        name@ == "whatsapp_command_executor"@,
{
    "whatsapp_command_executor"
}

} // verus!
