//! The WhatsApp provider vocabulary: media lifecycle events, call
//! directions and states, runtime statuses, and the keys whose values are
//! secrets.

use vstd::prelude::*;
use crate::text::{
    ascii_lower, ascii_lowercase_vec, chars_equal, chars_start_with, concat_text,
    string_from_chars, text_equal, trim_chars, trimmed_chars,
};

verus! {

/// The text of an optional static label.
pub open spec fn label_view(label: Option<&str>) -> Option<Seq<char>> {
    match label {
        Some(l) => Some(l@),
        None => None,
    }
}

/// The runtime event kind of a media event type.
pub open spec fn media_runtime_event_kind_of(s: Seq<char>) -> Option<Seq<char>> {
    if s == "whatsapp.media.upload.requested"@ {
        Some("media.upload.requested"@)
    } else if s == "whatsapp.media.upload.started"@ {
        Some("media.upload.started"@)
    } else if s == "whatsapp.media.upload.progress"@ {
        Some("media.upload.progress"@)
    } else if s == "whatsapp.media.upload.completed"@ {
        Some("media.upload.completed"@)
    } else if s == "whatsapp.media.upload.failed"@ {
        Some("media.upload.failed"@)
    } else if s == "whatsapp.media.download.requested"@ {
        Some("media.download.requested"@)
    } else if s == "whatsapp.media.download.started"@ {
        Some("media.download.started"@)
    } else if s == "whatsapp.media.download.progress"@ {
        Some("media.download.progress"@)
    } else if s == "whatsapp.media.download.completed"@ {
        Some("media.download.completed"@)
    } else if s == "whatsapp.media.download.failed"@ {
        Some("media.download.failed"@)
    } else {
        None
    }
}

/// The runtime event kind that a WhatsApp media event type maps to, if any.
pub fn whatsapp_media_runtime_event_kind(event_type: &str) -> (result: Option<&'static str>)
    ensures
        label_view(result) == media_runtime_event_kind_of(event_type@),
{
    if text_equal(event_type, "whatsapp.media.upload.requested") {
        return Some("media.upload.requested");
    }
    if text_equal(event_type, "whatsapp.media.upload.started") {
        return Some("media.upload.started");
    }
    if text_equal(event_type, "whatsapp.media.upload.progress") {
        return Some("media.upload.progress");
    }
    if text_equal(event_type, "whatsapp.media.upload.completed") {
        return Some("media.upload.completed");
    }
    if text_equal(event_type, "whatsapp.media.upload.failed") {
        return Some("media.upload.failed");
    }
    if text_equal(event_type, "whatsapp.media.download.requested") {
        return Some("media.download.requested");
    }
    if text_equal(event_type, "whatsapp.media.download.started") {
        return Some("media.download.started");
    }
    if text_equal(event_type, "whatsapp.media.download.progress") {
        return Some("media.download.progress");
    }
    if text_equal(event_type, "whatsapp.media.download.completed") {
        return Some("media.download.completed");
    }
    if text_equal(event_type, "whatsapp.media.download.failed") {
        return Some("media.download.failed");
    }
    None
}

/// The lifecycle state of a media event type; `observed` for any other type.
pub open spec fn media_lifecycle_state_of(s: Seq<char>) -> Option<Seq<char>> {
    if s == "whatsapp.media.upload.requested"@ || s == "whatsapp.media.download.requested"@ {
        Some("requested"@)
    } else if s == "whatsapp.media.upload.started"@ || s == "whatsapp.media.download.started"@ {
        Some("started"@)
    } else if s == "whatsapp.media.upload.progress"@ || s == "whatsapp.media.download.progress"@ {
        Some("in_progress"@)
    } else if s == "whatsapp.media.upload.completed"@ || s == "whatsapp.media.download.completed"@ {
        Some("completed"@)
    } else if s == "whatsapp.media.upload.failed"@ || s == "whatsapp.media.download.failed"@ {
        Some("failed"@)
    } else {
        Some("observed"@)
    }
}

/// The lifecycle state that a media event type reports; `observed` for any other type.
pub fn whatsapp_media_lifecycle_state(event_type: &str) -> (result: &'static str)
    ensures
        Some(result@) == media_lifecycle_state_of(event_type@),
{
    if text_equal(event_type, "whatsapp.media.upload.requested") || text_equal(event_type, "whatsapp.media.download.requested") {
        return "requested";
    }
    if text_equal(event_type, "whatsapp.media.upload.started") || text_equal(event_type, "whatsapp.media.download.started") {
        return "started";
    }
    if text_equal(event_type, "whatsapp.media.upload.progress") || text_equal(event_type, "whatsapp.media.download.progress") {
        return "in_progress";
    }
    if text_equal(event_type, "whatsapp.media.upload.completed") || text_equal(event_type, "whatsapp.media.download.completed") {
        return "completed";
    }
    if text_equal(event_type, "whatsapp.media.upload.failed") || text_equal(event_type, "whatsapp.media.download.failed") {
        return "failed";
    }
    "observed"
}

/// The runtime status a sanitized event may carry, or `None`.
pub open spec fn allowed_runtime_status_of(s: Seq<char>) -> Option<Seq<char>> {
    if s == "available"@ {
        Some("available"@)
    } else if s == "degraded"@ {
        Some("degraded"@)
    } else if s == "revoked"@ {
        Some("revoked"@)
    } else if s == "stopped"@ {
        Some("stopped"@)
    } else if s == "syncing"@ {
        Some("syncing"@)
    } else if s == "linked"@ {
        Some("linked"@)
    } else if s == "qr_pending"@ {
        Some("qr_pending"@)
    } else if s == "pair_code_pending"@ {
        Some("pair_code_pending"@)
    } else {
        None
    }
}

/// The runtime status as a static label when it is one the runtime may report.
pub fn allowed_runtime_status(value: &str) -> (result: Option<&'static str>)
    ensures
        label_view(result) == allowed_runtime_status_of(value@),
{
    if text_equal(value, "available") {
        return Some("available");
    }
    if text_equal(value, "degraded") {
        return Some("degraded");
    }
    if text_equal(value, "revoked") {
        return Some("revoked");
    }
    if text_equal(value, "stopped") {
        return Some("stopped");
    }
    if text_equal(value, "syncing") {
        return Some("syncing");
    }
    if text_equal(value, "linked") {
        return Some("linked");
    }
    if text_equal(value, "qr_pending") {
        return Some("qr_pending");
    }
    if text_equal(value, "pair_code_pending") {
        return Some("pair_code_pending");
    }
    None
}

/// The lifecycle state a sanitized event may carry, or `None`.
pub open spec fn allowed_lifecycle_state_of(s: Seq<char>) -> Option<Seq<char>> {
    if s == "available"@ {
        Some("available"@)
    } else if s == "degraded"@ {
        Some("degraded"@)
    } else if s == "recovering"@ {
        Some("recovering"@)
    } else if s == "revoked"@ {
        Some("revoked"@)
    } else if s == "stopped"@ {
        Some("stopped"@)
    } else if s == "syncing"@ {
        Some("syncing"@)
    } else if s == "linked"@ {
        Some("linked"@)
    } else if s == "qr_pending"@ {
        Some("qr_pending"@)
    } else if s == "pair_code_pending"@ {
        Some("pair_code_pending"@)
    } else {
        None
    }
}

/// The lifecycle state as a static label when it is one the runtime may report.
pub fn allowed_lifecycle_state(value: &str) -> (result: Option<&'static str>)
    ensures
        label_view(result) == allowed_lifecycle_state_of(value@),
{
    if text_equal(value, "available") {
        return Some("available");
    }
    if text_equal(value, "degraded") {
        return Some("degraded");
    }
    if text_equal(value, "recovering") {
        return Some("recovering");
    }
    if text_equal(value, "revoked") {
        return Some("revoked");
    }
    if text_equal(value, "stopped") {
        return Some("stopped");
    }
    if text_equal(value, "syncing") {
        return Some("syncing");
    }
    if text_equal(value, "linked") {
        return Some("linked");
    }
    if text_equal(value, "qr_pending") {
        return Some("qr_pending");
    }
    if text_equal(value, "pair_code_pending") {
        return Some("pair_code_pending");
    }
    None
}

/// The runtime severity a sanitized event may carry, or `None`.
pub open spec fn allowed_runtime_severity_of(s: Seq<char>) -> Option<Seq<char>> {
    if s == "info"@ {
        Some("info"@)
    } else if s == "warning"@ {
        Some("warning"@)
    } else if s == "blocked"@ {
        Some("blocked"@)
    } else {
        None
    }
}

/// The runtime severity as a static label when it is one the runtime may report.
pub fn allowed_runtime_severity(value: &str) -> (result: Option<&'static str>)
    ensures
        label_view(result) == allowed_runtime_severity_of(value@),
{
    if text_equal(value, "info") {
        return Some("info");
    }
    if text_equal(value, "warning") {
        return Some("warning");
    }
    if text_equal(value, "blocked") {
        return Some("blocked");
    }
    None
}

/// The key names whose values the fixture ingest never stores.
pub open spec fn fixture_secret_key_name(k: Seq<char>) -> bool {
    k == "access_token"@ || k == "refresh_token"@ || k == "session_key"@ || k == "session_material"@ || k == "authorization"@ || k == "cookie"@ || k == "token"@ || k == "secret"@ || k == "secret_key"@ || k == "password"@
}

/// Whether `key`, trimmed and ASCII lower-cased, names a secret of the fixture ingest.
pub fn is_secret_like_key(key: &str) -> (secret: bool)
    ensures
        secret == fixture_secret_key_name(ascii_lower(trim_chars(key@))),
{
    let k = ascii_lowercase_vec(&trimmed_chars(key));
    chars_equal(&k, "access_token") || chars_equal(&k, "refresh_token") || chars_equal(&k, "session_key") || chars_equal(&k, "session_material") || chars_equal(&k, "authorization") || chars_equal(&k, "cookie") || chars_equal(&k, "token") || chars_equal(&k, "secret") || chars_equal(&k, "secret_key") || chars_equal(&k, "password")
}

/// The key names whose values the native runtime ingest never stores.
pub open spec fn native_secret_key_name(k: Seq<char>) -> bool {
    k == "access_token"@ || k == "refresh_token"@ || k == "session_key"@ || k == "session_material"@ || k == "authorization"@ || k == "cookie"@ || k == "token"@ || k == "secret"@ || k == "secret_key"@ || k == "media_key"@ || k == "direct_path"@ || k == "static_url"@ || k == "url"@ || k == "password"@
}

/// Whether `key`, trimmed and ASCII lower-cased, names a secret of the native runtime ingest, media locators included.
pub fn is_native_runtime_secret_like_key(key: &str) -> (secret: bool)
    ensures
        secret == native_secret_key_name(ascii_lower(trim_chars(key@))),
{
    let k = ascii_lowercase_vec(&trimmed_chars(key));
    chars_equal(&k, "access_token") || chars_equal(&k, "refresh_token") || chars_equal(&k, "session_key") || chars_equal(&k, "session_material") || chars_equal(&k, "authorization") || chars_equal(&k, "cookie") || chars_equal(&k, "token") || chars_equal(&k, "secret") || chars_equal(&k, "secret_key") || chars_equal(&k, "media_key") || chars_equal(&k, "direct_path") || chars_equal(&k, "static_url") || chars_equal(&k, "url") || chars_equal(&k, "password")
}

/// The storage kind recorded for a media blob: `local_blob` is recorded as
/// `local_fs`; any other kind is kept, trimmed.
pub open spec fn storage_kind_of(kind: Seq<char>) -> Seq<char> {
    if trim_chars(kind) == "local_blob"@ {
        "local_fs"@
    } else {
        trim_chars(kind)
    }
}

/// A normalized storage kind is never `local_blob`, and normalizes to
/// itself.
pub proof fn lemma_storage_kind_is_normal(kind: Seq<char>)
    ensures
        storage_kind_of(kind) != "local_blob"@,
        storage_kind_of(storage_kind_of(kind)) == storage_kind_of(kind),
{
    reveal_strlit("local_blob");
    reveal_strlit("local_fs");
    crate::text::lemma_trim_is_idempotent(kind);
    if trim_chars(kind) == "local_blob"@ {
        let fs = "local_fs"@;
        assert(fs[0] == 'l' && fs.last() == 's');
        crate::text::lemma_clean_text_is_trimmed(fs);
        assert(fs.len() != "local_blob"@.len());
    }
}

/// Normalizes a media storage kind.
pub fn normalized_whatsapp_media_storage_kind(storage_kind: &str) -> (kind: String)
    ensures
        kind@ == storage_kind_of(storage_kind@),
{
    let value = trimmed_chars(storage_kind);
    if chars_equal(&value, "local_blob") {
        "local_fs".to_owned()
    } else {
        string_from_chars(value.as_slice())
    }
}

/// The digest reference recorded for media: the trimmed value, prefixed
/// with `sha256:` unless it already starts with it.
pub open spec fn media_sha256_of(value: Seq<char>) -> Seq<char> {
    let v = trim_chars(value);
    if 7 <= v.len() && v.subrange(0, 7) == "sha256:"@ {
        v
    } else {
        "sha256:"@ + v
    }
}

/// A normalized digest reference starts with `sha256:` and normalizes to
/// itself.
pub proof fn lemma_media_sha256_is_normal(value: Seq<char>)
    ensures
        media_sha256_of(value).len() >= 7,
        media_sha256_of(value).subrange(0, 7) == "sha256:"@,
        media_sha256_of(media_sha256_of(value)) == media_sha256_of(value),
{
    reveal_strlit("sha256:");
    let v = trim_chars(value);
    crate::text::lemma_trim_is_idempotent(value);
    crate::text::lemma_trimmed_ends(value);
    if !(7 <= v.len() && v.subrange(0, 7) == "sha256:"@) {
        let r = "sha256:"@ + v;
        assert(r[0] == 's');
        if v.len() > 0 {
            assert(r.last() == v.last());
        } else {
            assert(r.last() == ':');
        }
        crate::text::lemma_clean_text_is_trimmed(r);
        assert(r.subrange(0, 7) =~= "sha256:"@);
    }
}

/// Normalizes a media digest to the `sha256:<hex>` form.
pub fn normalized_whatsapp_media_sha256(sha256: &str) -> (reference: String)
    ensures
        reference@ == media_sha256_of(sha256@),
{
    let value = trimmed_chars(sha256);
    proof {
        reveal_strlit("sha256:");
    }
    if chars_start_with(&value, "sha256:") {
        string_from_chars(value.as_slice())
    } else {
        let mut out = crate::text::chars_of("sha256:");
        crate::text::append_chars(&mut out, &value);
        string_from_chars(out.as_slice())
    }
}

/// The direction of a call.
#[derive(Clone, Copy, Debug, PartialEq, Eq, Structural)]
pub enum CallDirection {
    Incoming,
    Outgoing,
}

/// The state of a call.
#[derive(Clone, Copy, Debug, PartialEq, Eq, Structural)]
pub enum CallState {
    Ringing,
    Active,
    Ended,
    Missed,
    Declined,
    Failed,
}

/// Why the fixture ingest refuses an input.
#[derive(Clone, Debug, PartialEq, Eq)]
pub enum CommunicationFixtureIngestError {
    /// The input is outside what the signal controls allow; the text says
    /// why.
    SignalControlBlocked(String),
}

/// The message of an unsupported value: `<what> `<value>``.
pub open spec fn unsupported_message(what: Seq<char>, value: Seq<char>) -> Seq<char> {
    what + seq!['`'] + value + seq!['`']
}

fn unsupported(what: &str, value: &Vec<char>) -> (error: CommunicationFixtureIngestError)
    ensures
        error == CommunicationFixtureIngestError::SignalControlBlocked(error->SignalControlBlocked_0),
        error->SignalControlBlocked_0@ == unsupported_message(what@, value@),
{
    let mut out = crate::text::chars_of(what);
    out.push('`');
    crate::text::append_chars(&mut out, value);
    out.push('`');
    CommunicationFixtureIngestError::SignalControlBlocked(string_from_chars(out.as_slice()))
}

/// The call direction a trimmed value names.
pub open spec fn call_direction_of(value: Seq<char>) -> Option<CallDirection> {
    if value == "incoming"@ {
        Some(CallDirection::Incoming)
    } else if value == "outgoing"@ {
        Some(CallDirection::Outgoing)
    } else {
        None
    }
}

/// Parses a call direction; anything but `incoming` or `outgoing` (after
/// trimming) is refused with a message naming the value.
pub fn whatsapp_call_direction(value: &str) -> (result: Result<
    CallDirection,
    CommunicationFixtureIngestError,
>)
    ensures
        match call_direction_of(trim_chars(value@)) {
            Some(direction) => result == Ok::<CallDirection, CommunicationFixtureIngestError>(
                direction,
            ),
            None => result matches Err(CommunicationFixtureIngestError::SignalControlBlocked(
                message,
            )) && message@ == unsupported_message(
                "unsupported whatsapp call direction "@,
                trim_chars(value@),
            ),
        },
{
    let v = trimmed_chars(value);
    if chars_equal(&v, "incoming") {
        Ok(CallDirection::Incoming)
    } else if chars_equal(&v, "outgoing") {
        Ok(CallDirection::Outgoing)
    } else {
        Err(unsupported("unsupported whatsapp call direction ", &v))
    }
}

/// The call state a trimmed value names.
pub open spec fn call_state_of(value: Seq<char>) -> Option<CallState> {
    if value == "ringing"@ {
        Some(CallState::Ringing)
    } else if value == "active"@ {
        Some(CallState::Active)
    } else if value == "ended"@ {
        Some(CallState::Ended)
    } else if value == "missed"@ {
        Some(CallState::Missed)
    } else if value == "declined"@ {
        Some(CallState::Declined)
    } else if value == "failed"@ {
        Some(CallState::Failed)
    } else {
        None
    }
}

/// Parses a call state; an unknown value (after trimming) is refused with a
/// message naming it.
pub fn whatsapp_call_state(value: &str) -> (result: Result<CallState, CommunicationFixtureIngestError>)
    ensures
        match call_state_of(trim_chars(value@)) {
            Some(state) => result == Ok::<CallState, CommunicationFixtureIngestError>(state),
            None => result matches Err(CommunicationFixtureIngestError::SignalControlBlocked(
                message,
            )) && message@ == unsupported_message(
                "unsupported whatsapp call state "@,
                trim_chars(value@),
            ),
        },
{
    let v = trimmed_chars(value);
    if chars_equal(&v, "ringing") {
        Ok(CallState::Ringing)
    } else if chars_equal(&v, "active") {
        Ok(CallState::Active)
    } else if chars_equal(&v, "ended") {
        Ok(CallState::Ended)
    } else if chars_equal(&v, "missed") {
        Ok(CallState::Missed)
    } else if chars_equal(&v, "declined") {
        Ok(CallState::Declined)
    } else if chars_equal(&v, "failed") {
        Ok(CallState::Failed)
    } else {
        Err(unsupported("unsupported whatsapp call state ", &v))
    }
}

/// Whether a Zulip command kind carries an upload.
pub open spec fn command_kind_uploads(kind: Seq<char>) -> bool {
    kind == "upload_file"@ || kind == "send_stream_message_with_upload"@ || kind
        == "send_direct_message_with_upload"@
}

/// Whether a Zulip command of `command_kind` needs its file uploaded first.
pub fn command_requires_upload(command_kind: &str) -> (uploads: bool)
    ensures
        uploads == command_kind_uploads(command_kind@),
{
    text_equal(command_kind, "upload_file") || text_equal(
        command_kind,
        "send_stream_message_with_upload",
    ) || text_equal(command_kind, "send_direct_message_with_upload")
}

/// Whether a runtime status calls for a startup restore reconcile: a
/// session can be restored, or the runtime reports `available` or `linked`.
pub fn should_reconcile_whatsapp_runtime_restore(
    session_restore_available: bool,
    status: &str,
) -> (reconcile: bool)
    ensures
        reconcile == (session_restore_available || status@ == "available"@ || status@
            == "linked"@),
{
    session_restore_available || text_equal(status, "available") || text_equal(status, "linked")
}

} // verus!
