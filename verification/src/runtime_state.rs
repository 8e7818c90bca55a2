//! The runtime state that a sanitized WhatsApp native runtime event
//! reports, and the decisions about restoring a runtime at startup.

use vstd::prelude::*;
use crate::json::{as_bool_view, as_str_view, json_as_bool, json_as_str, json_get, json_view, lookup, JsonValue, JsonView};
use crate::text::text_equal;
use crate::whatsapp_vocab::{
    allowed_lifecycle_state, allowed_lifecycle_state_of, allowed_runtime_severity,
    allowed_runtime_severity_of, allowed_runtime_status, allowed_runtime_status_of,
};

verus! {

/// A runtime status, lifecycle state and severity.
pub type RuntimeStateLabels = (Seq<char>, Seq<char>, Seq<char>);

/// The state that the event's own metadata names, when it names an allowed
/// runtime status, lifecycle state and severity.
pub open spec fn runtime_state_override_of(metadata: JsonView) -> Option<RuntimeStateLabels> {
    match (
        as_str_view(lookup(metadata, "runtime_status"@)),
        as_str_view(lookup(metadata, "lifecycle_state"@)),
        as_str_view(lookup(metadata, "severity"@)),
    ) {
        (Some(status), Some(lifecycle), Some(severity)) => match (
            allowed_runtime_status_of(status),
            allowed_lifecycle_state_of(lifecycle),
            allowed_runtime_severity_of(severity),
        ) {
            (Some(a), Some(b), Some(c)) => Some((a, b, c)),
            _ => None,
        },
        _ => None,
    }
}

/// The state of a runtime event: the metadata's own state when it names an
/// allowed one, otherwise the state that the provider event name implies.
pub open spec fn runtime_event_state_of(event_name: Seq<char>, metadata: JsonView) -> RuntimeStateLabels {
    match runtime_state_override_of(metadata) {
        Some(state) => state,
        None => if event_name == "PairingQrCode"@ {
            ("qr_pending"@, "qr_pending"@, "info"@)
        } else if event_name == "PairingCode"@ {
            ("pair_code_pending"@, "pair_code_pending"@, "info"@)
        } else if event_name == "PairSuccess"@ {
            ("linked"@, "linked"@, "info"@)
        } else if event_name == "Connected"@ {
            ("available"@, "available"@, "info"@)
        } else if event_name == "HistorySync"@ || event_name == "OfflineSyncPreview"@ || event_name
            == "OfflineSyncCompleted"@ {
            ("syncing"@, "syncing"@, "info"@)
        } else if event_name == "LoggedOut"@ {
            ("revoked"@, "revoked"@, "warning"@)
        } else {
            ("degraded"@, "degraded"@, "warning"@)
        },
    }
}

/// The labels of a static state.
pub open spec fn labels_view(labels: (&str, &str, &str)) -> RuntimeStateLabels {
    (labels.0@, labels.1@, labels.2@)
}

/// The state that `metadata` names for itself, when its runtime status,
/// lifecycle state and severity are all strings the runtime may report.
pub fn sanitized_runtime_state_override(metadata: &JsonValue) -> (state: Option<
    (&'static str, &'static str, &'static str),
>)
    ensures
        match state {
            Some(labels) => runtime_state_override_of(json_view(*metadata)) == Some(
                labels_view(labels),
            ),
            None => runtime_state_override_of(json_view(*metadata)) is None,
        },
{
    let status = match json_as_str(json_get(metadata, "runtime_status")) {
        Some(s) => s,
        None => return None,
    };
    let lifecycle = match json_as_str(json_get(metadata, "lifecycle_state")) {
        Some(s) => s,
        None => return None,
    };
    let severity = match json_as_str(json_get(metadata, "severity")) {
        Some(s) => s,
        None => return None,
    };
    let a = match allowed_runtime_status(status) {
        Some(a) => a,
        None => return None,
    };
    let b = match allowed_lifecycle_state(lifecycle) {
        Some(b) => b,
        None => return None,
    };
    let c = match allowed_runtime_severity(severity) {
        Some(c) => c,
        None => return None,
    };
    Some((a, b, c))
}

/// The runtime status, lifecycle state and severity that a native runtime
/// event reports.
pub fn runtime_event_state(provider_event_name: &str, metadata: &JsonValue) -> (state: (
    &'static str,
    &'static str,
    &'static str,
))
    ensures
        labels_view(state) == runtime_event_state_of(provider_event_name@, json_view(*metadata)),
{
    if let Some(state) = sanitized_runtime_state_override(metadata) {
        return state;
    }
    if text_equal(provider_event_name, "PairingQrCode") {
        ("qr_pending", "qr_pending", "info")
    } else if text_equal(provider_event_name, "PairingCode") {
        ("pair_code_pending", "pair_code_pending", "info")
    } else if text_equal(provider_event_name, "PairSuccess") {
        ("linked", "linked", "info")
    } else if text_equal(provider_event_name, "Connected") {
        ("available", "available", "info")
    } else if text_equal(provider_event_name, "HistorySync") || text_equal(
        provider_event_name,
        "OfflineSyncPreview",
    ) || text_equal(provider_event_name, "OfflineSyncCompleted") {
        ("syncing", "syncing", "info")
    } else if text_equal(provider_event_name, "LoggedOut") {
        ("revoked", "revoked", "warning")
    } else {
        ("degraded", "degraded", "warning")
    }
}

/// The runtime snapshot fields that the signal connection settings record.
pub struct WhatsappRuntimeSnapshot {
    pub status: String,
    pub provider_shape: String,
    pub runtime_kind: String,
    pub session_restore_available: bool,
    pub last_error: Option<String>,
}

/// Whether a stored last error matches the snapshot's: a stored `null` (or
/// none) matches no error, a stored string matches that error.
pub open spec fn last_error_matches(stored: Option<JsonView>, last_error: Option<Seq<char>>) -> bool {
    match (stored, last_error) {
        (None, None) => true,
        (Some(JsonView::Null), None) => true,
        (Some(JsonView::String(s)), Some(e)) => s == e,
        _ => false,
    }
}

/// Whether the runtime snapshot differs from the one the connection
/// settings record: with no connection, or when the status, provider
/// shape, runtime kind, restore availability or last error differ.
pub open spec fn snapshot_changed(settings: Option<JsonView>, snapshot: WhatsappRuntimeSnapshot) -> bool {
    match settings {
        None => true,
        Some(s) => {
            ||| as_str_view(lookup(s, "whatsapp_runtime_status"@)) != Some(snapshot.status@)
            ||| as_str_view(lookup(s, "whatsapp_provider_shape"@)) != Some(snapshot.provider_shape@)
            ||| as_str_view(lookup(s, "whatsapp_runtime_kind"@)) != Some(snapshot.runtime_kind@)
            ||| as_bool_view(lookup(s, "whatsapp_session_restore_available"@)) != Some(
                snapshot.session_restore_available,
            )
            ||| !last_error_matches(
                lookup(s, "whatsapp_last_error"@),
                match snapshot.last_error {
                    Some(e) => Some(e@),
                    None => None,
                },
            )
        },
    }
}

fn str_field_differs(settings: &JsonValue, key: &str, expected: &str) -> (differs: bool)
    ensures
        differs == (as_str_view(lookup(json_view(*settings), key@)) != Some(expected@)),
{
    match json_as_str(json_get(settings, key)) {
        Some(s) => !text_equal(s, expected),
        None => true,
    }
}

/// Whether the runtime snapshot must be recorded again; `connection_settings`
/// are the settings of the existing signal connection, if there is one.
pub fn whatsapp_runtime_snapshot_changed(
    connection_settings: Option<&JsonValue>,
    snapshot: &WhatsappRuntimeSnapshot,
) -> (changed: bool)
    ensures
        changed == snapshot_changed(
            match connection_settings {
                Some(s) => Some(json_view(*s)),
                None => None,
            },
            *snapshot,
        ),
{
    let settings = match connection_settings {
        Some(s) => s,
        None => return true,
    };
    if str_field_differs(settings, "whatsapp_runtime_status", snapshot.status.as_str()) {
        return true;
    }
    if str_field_differs(settings, "whatsapp_provider_shape", snapshot.provider_shape.as_str()) {
        return true;
    }
    if str_field_differs(settings, "whatsapp_runtime_kind", snapshot.runtime_kind.as_str()) {
        return true;
    }
    match json_as_bool(json_get(settings, "whatsapp_session_restore_available")) {
        Some(b) => if b != snapshot.session_restore_available {
            return true;
        },
        None => return true,
    }
    let stored = json_get(settings, "whatsapp_last_error");
    let matches = match (stored, &snapshot.last_error) {
        (None, None) => true,
        (Some(JsonValue::Null), None) => true,
        (Some(JsonValue::String(s)), Some(e)) => text_equal(s.as_str(), e.as_str()),
        _ => false,
    };
    !matches
}

/// Law: a runtime event always reports labels the runtime may report: a
/// status among available, degraded, revoked, stopped, syncing, linked,
/// qr_pending and pair_code_pending; a lifecycle state among those and
/// recovering; and a severity among info, warning and blocked. An event
/// whose metadata names no allowed state and whose name is not a known
/// runtime event reports `degraded` with a warning.
pub proof fn lemma_runtime_event_labels_are_allowed(event_name: Seq<char>, metadata: JsonView)
    ensures
        ({
            let (status, lifecycle, severity) = runtime_event_state_of(event_name, metadata);
            &&& status == "available"@ || status == "degraded"@ || status == "revoked"@ || status == "stopped"@
                || status == "syncing"@ || status == "linked"@ || status == "qr_pending"@ || status
                == "pair_code_pending"@
            &&& lifecycle == "available"@ || lifecycle == "degraded"@ || lifecycle == "recovering"@ || lifecycle
                == "revoked"@ || lifecycle == "stopped"@ || lifecycle == "syncing"@ || lifecycle == "linked"@
                || lifecycle == "qr_pending"@ || lifecycle == "pair_code_pending"@
            &&& severity == "info"@ || severity == "warning"@ || severity == "blocked"@
        }),
        runtime_state_override_of(metadata) is None && event_name != "PairingQrCode"@ && event_name
            != "PairingCode"@ && event_name != "PairSuccess"@ && event_name != "Connected"@ && event_name
            != "HistorySync"@ && event_name != "OfflineSyncPreview"@ && event_name != "OfflineSyncCompleted"@
            && event_name != "LoggedOut"@ ==> runtime_event_state_of(event_name, metadata) == ("degraded"@, "degraded"@, "warning"@),
{
}

} // verus!
