//! What executing a WhatsApp provider write command records: for a fixture
//! account, the observation each command kind is ingested as; for a live
//! native download, the checks on the downloaded bytes and the ids the media
//! observation carries. The caller performs the ingest calls, the blob write
//! and the events.

use vstd::prelude::*;
use crate::json::{as_str_view, json_as_str, json_get, json_view, lookup, JsonValue, JsonView};
use crate::media_download::{
    command_value, media_download_content_type, media_download_provider_attachment_id, or_else,
    reported_content_type, WhatsAppProviderCommandExecutionError, WhatsAppProviderWriteCommand,
};
use crate::stable_ids::{fixture_media_sha256, hex_lower, sha256};
use crate::text::{concat_text, text_equal, trim_chars, trim_text};
use vstd::utf8::encode_utf8;

verus! {

/// The display name under which the owner's own commands are observed.
pub const OWNER_DISPLAY_NAME: &'static str = "Hermes Owner";

/// The observation a fixture command is ingested as. Messages are sent by
/// the account itself as `OWNER_DISPLAY_NAME` in the command's chat (which
/// also titles the chat) and are delivered as sent; deletes are provider
/// commands by the account itself; a joined or left group member is the
/// account's own `whatsapp_self` identity named `OWNER_DISPLAY_NAME`, with
/// the role `member`.
#[derive(Debug, PartialEq, Eq)]
pub enum FixtureCommandIngest {
    /// An edit of a stored message.
    MessageUpdate { provider_message_id: String, text: String },
    /// A sent message; `forwarded` says whether it carries a forward time.
    Message {
        provider_message_id: String,
        text: String,
        reply_to_provider_message_id: Option<String>,
        forward_origin_chat_id: Option<String>,
        forward_origin_message_id: Option<String>,
        forwarded: bool,
    },
    /// A sent message with the uploaded media as its attachment.
    MediaMessage { provider_message_id: String, provider_attachment_id: String, text: String },
    /// Downloaded media of a stored message.
    MediaDownload {
        provider_message_id: String,
        provider_attachment_id: String,
        filename: Option<String>,
        content_type: String,
        sha256: String,
        storage_kind: String,
        storage_path: String,
    },
    /// A deleted message.
    MessageDelete { provider_message_id: String },
    /// A reaction set or taken back.
    Reaction { provider_message_id: String, reaction: String, is_active: bool },
    /// A change to a chat's archive, pin, mute or unread state.
    Dialog {
        chat_title: String,
        chat_kind: String,
        is_archived: bool,
        is_pinned: bool,
        is_muted: Option<bool>,
        is_unread: Option<bool>,
    },
    /// The account joining or leaving a group.
    Participant {
        chat_title: String,
        chat_kind: String,
        provider_member_id: String,
        provider_identity_id: String,
        status: String,
    },
    /// A published status: its text, or the error when the payload has
    /// none. The status's started event is published before that error.
    Status { provider_status_id: String, text: Result<String, String> },
}

/// What a fixture command is ingested as, and the import batch it belongs
/// to.
#[derive(Debug, PartialEq, Eq)]
pub struct FixtureCommandIngestPlan {
    pub import_batch_id: String,
    pub ingest: FixtureCommandIngest,
}

/// An ingest as the contracts see it.
pub enum IngestView {
    MessageUpdate(Seq<char>, Seq<char>),
    Message(Seq<char>, Seq<char>, Option<Seq<char>>, Option<Seq<char>>, Option<Seq<char>>, bool),
    MediaMessage(Seq<char>, Seq<char>, Seq<char>),
    MediaDownload(Seq<char>, Seq<char>, Option<Seq<char>>, Seq<char>, Seq<char>, Seq<char>, Seq<char>),
    MessageDelete(Seq<char>),
    Reaction(Seq<char>, Seq<char>, bool),
    Dialog(Seq<char>, Seq<char>, bool, bool, Option<bool>, Option<bool>),
    Participant(Seq<char>, Seq<char>, Seq<char>, Seq<char>, Seq<char>),
    Status(Seq<char>, Result<Seq<char>, Seq<char>>),
}

pub open spec fn opt_text(s: Option<String>) -> Option<Seq<char>> {
    match s {
        Some(t) => Some(t@),
        None => None,
    }
}

pub open spec fn ingest_view(i: FixtureCommandIngest) -> IngestView {
    match i {
        FixtureCommandIngest::MessageUpdate { provider_message_id, text } => IngestView::MessageUpdate(
            provider_message_id@,
            text@,
        ),
        FixtureCommandIngest::Message {
            provider_message_id,
            text,
            reply_to_provider_message_id,
            forward_origin_chat_id,
            forward_origin_message_id,
            forwarded,
        } => IngestView::Message(
            provider_message_id@,
            text@,
            opt_text(reply_to_provider_message_id),
            opt_text(forward_origin_chat_id),
            opt_text(forward_origin_message_id),
            forwarded,
        ),
        FixtureCommandIngest::MediaMessage { provider_message_id, provider_attachment_id, text } =>
            IngestView::MediaMessage(provider_message_id@, provider_attachment_id@, text@),
        FixtureCommandIngest::MediaDownload {
            provider_message_id,
            provider_attachment_id,
            filename,
            content_type,
            sha256,
            storage_kind,
            storage_path,
        } => IngestView::MediaDownload(
            provider_message_id@,
            provider_attachment_id@,
            opt_text(filename),
            content_type@,
            sha256@,
            storage_kind@,
            storage_path@,
        ),
        FixtureCommandIngest::MessageDelete { provider_message_id } => IngestView::MessageDelete(
            provider_message_id@,
        ),
        FixtureCommandIngest::Reaction { provider_message_id, reaction, is_active } =>
            IngestView::Reaction(provider_message_id@, reaction@, is_active),
        FixtureCommandIngest::Dialog { chat_title, chat_kind, is_archived, is_pinned, is_muted, is_unread } =>
            IngestView::Dialog(chat_title@, chat_kind@, is_archived, is_pinned, is_muted, is_unread),
        FixtureCommandIngest::Participant {
            chat_title,
            chat_kind,
            provider_member_id,
            provider_identity_id,
            status,
        } => IngestView::Participant(
            chat_title@,
            chat_kind@,
            provider_member_id@,
            provider_identity_id@,
            status@,
        ),
        FixtureCommandIngest::Status { provider_status_id, text } => IngestView::Status(
            provider_status_id@,
            match text {
                Ok(t) => Ok(t@),
                Err(e) => Err(e@),
            },
        ),
    }
}

/// The string under `key` of a JSON document (`get(key).and_then(as_str)`).
pub open spec fn str_at(v: JsonValue, key: Seq<char>) -> Option<Seq<char>> {
    as_str_view(lookup(json_view(v), key))
}

pub open spec fn or_text(a: Option<Seq<char>>, fallback: Seq<char>) -> Seq<char> {
    match a {
        Some(x) => x,
        None => fallback,
    }
}

/// The import batch of a command's observations.
pub open spec fn import_batch_of(account_id: Seq<char>, command_id: Seq<char>) -> Seq<char> {
    "whatsapp-command:"@ + account_id + ":"@ + command_id
}

/// The caption of a media command when it is not blank, untrimmed.
pub open spec fn caption_of(payload: JsonValue) -> Option<Seq<char>> {
    match str_at(payload, "caption"@) {
        Some(c) => if trim_chars(c).len() > 0 {
            Some(c)
        } else {
            None
        },
        None => None,
    }
}

/// The text of a media message: the caption, or a default that names the
/// voice note or the file.
pub open spec fn media_text_of(kind: Seq<char>, payload: JsonValue) -> Seq<char> {
    match caption_of(payload) {
        Some(c) => c,
        None => if kind == "send_voice_note"@ {
            "Voice note"@
        } else {
            "Media attachment: "@ + or_text(str_at(payload, "filename"@), "attachment.bin"@)
        },
    }
}

pub open spec fn is_dialog_kind(kind: Seq<char>) -> bool {
    kind == "archive"@ || kind == "unarchive"@ || kind == "pin"@ || kind == "unpin"@ || kind == "mute"@
        || kind == "unmute"@ || kind == "mark_read"@ || kind == "mark_unread"@
}

/// A sent message of the command's own id.
pub open spec fn sent_message(
    command_id: Seq<char>,
    text: Seq<char>,
    reply_to: Option<Seq<char>>,
    origin_chat: Option<Seq<char>>,
    origin_message: Option<Seq<char>>,
    forwarded: bool,
) -> IngestView {
    IngestView::Message("provider-message:"@ + command_id, text, reply_to, origin_chat, origin_message, forwarded)
}

/// What a fixture command is ingested as, or why it cannot be executed.
pub open spec fn fixture_ingest_of(c: WhatsAppProviderWriteCommand) -> Result<IngestView, Seq<char>> {
    let kind = c.command_kind@;
    let id = c.command_id@;
    let payload = c.payload;
    let text = str_at(payload, "text"@);
    let pmid = opt_text(c.provider_message_id);
    if kind == "edit"@ {
        match pmid {
            None => Err("provider_message_id is required"@),
            Some(m) => match text {
                None => Err("payload.text is required"@),
                Some(t) => Ok(IngestView::MessageUpdate(m, t)),
            },
        }
    } else if kind == "send_text"@ || kind == "reply"@ {
        match text {
            None => Err("payload.text is required"@),
            Some(t) => Ok(
                sent_message(
                    id,
                    t,
                    if kind == "reply"@ {
                        str_at(payload, "reply_to_provider_message_id"@)
                    } else {
                        None
                    },
                    None,
                    None,
                    false,
                ),
            ),
        }
    } else if kind == "forward"@ {
        Ok(
            sent_message(
                id,
                "Forwarded message"@,
                None,
                str_at(payload, "from_provider_chat_id"@),
                str_at(payload, "from_provider_message_id"@),
                true,
            ),
        )
    } else if kind == "send_media"@ || kind == "send_voice_note"@ {
        Ok(
            IngestView::MediaMessage(
                "provider-message:"@ + id,
                "provider-attachment:"@ + id,
                media_text_of(kind, payload),
            ),
        )
    } else if kind == "download_media"@ {
        match pmid {
            None => Err("provider_message_id is required"@),
            Some(m) => Ok(
                IngestView::MediaDownload(
                    m,
                    or_text(
                        or_else(str_at(payload, "provider_attachment_id"@), str_at(c.target_ref, "provider_attachment_id"@)),
                        id,
                    ),
                    str_at(payload, "filename"@),
                    or_text(str_at(payload, "content_type"@), "application/octet-stream"@),
                    "sha256:"@ + hex_lower(sha256(encode_utf8(id))),
                    "local_fs"@,
                    "whatsapp/fixture/downloads/"@ + id + ".bin"@,
                ),
            ),
        }
    } else if kind == "delete"@ {
        match pmid {
            None => Err("provider_message_id is required"@),
            Some(m) => Ok(IngestView::MessageDelete(m)),
        }
    } else if kind == "react"@ || kind == "unreact"@ {
        match pmid {
            None => Err("provider_message_id is required"@),
            Some(m) => match str_at(payload, "reaction_emoji"@) {
                None => Err("payload.reaction_emoji is required"@),
                Some(r) => Ok(IngestView::Reaction(m, r, kind == "react"@)),
            },
        }
    } else if is_dialog_kind(kind) {
        Ok(
            IngestView::Dialog(
                or_text(str_at(c.target_ref, "chat_title"@), c.provider_chat_id@),
                or_text(str_at(c.target_ref, "chat_kind"@), "private"@),
                kind == "archive"@,
                kind == "pin"@,
                if kind == "mute"@ {
                    Some(true)
                } else if kind == "unmute"@ {
                    Some(false)
                } else {
                    None
                },
                if kind == "mark_unread"@ {
                    Some(true)
                } else if kind == "mark_read"@ {
                    Some(false)
                } else {
                    None
                },
            ),
        )
    } else if kind == "join_group"@ || kind == "leave_group"@ {
        Ok(
            IngestView::Participant(
                or_text(str_at(c.target_ref, "chat_title"@), c.provider_chat_id@),
                or_text(str_at(c.target_ref, "chat_kind"@), "group"@),
                "self-member:"@ + c.account_id@,
                "self-identity:"@ + c.account_id@,
                if kind == "join_group"@ {
                    "member"@
                } else {
                    "left"@
                },
            ),
        )
    } else if kind == "publish_status"@ {
        Ok(
            IngestView::Status(
                "provider-status:"@ + id,
                match text {
                    Some(t) => Ok(t),
                    None => Err("payload.text is required"@),
                },
            ),
        )
    } else {
        Err("unsupported fixture command executor kind `"@ + kind + "`"@)
    }
}

/// The string under `key` of `v`.
fn str_value(v: &JsonValue, key: &str) -> (s: Option<String>)
    ensures
        opt_text(s) == str_at(*v, key@),
{
    match json_as_str(json_get(v, key)) {
        Some(t) => Some(t.to_owned()),
        None => None,
    }
}

fn text_or(a: Option<String>, fallback: &str) -> (s: String)
    ensures
        s@ == or_text(opt_text(a), fallback@),
{
    match a {
        Some(t) => t,
        None => fallback.to_owned(),
    }
}

/// `prefix` followed by `tail`.
fn joined(prefix: &str, tail: &str) -> (s: String)
    ensures
        s@ == prefix@ + tail@,
{
    concat_text(prefix, tail)
}

fn required_text(s: Option<String>, message: &str) -> (r: Result<String, String>)
    ensures
        match s {
            Some(t) => r == Ok::<String, String>(t),
            None => r matches Err(m) && m@ == message@,
        },
{
    match s {
        Some(t) => Ok(t),
        None => Err(message.to_owned()),
    }
}

fn media_text(command: &WhatsAppProviderWriteCommand) -> (text: String)
    ensures
        text@ == media_text_of(command.command_kind@, command.payload),
{
    match str_value(&command.payload, "caption") {
        Some(c) => {
            if !trim_text(c.as_str()).as_str().is_empty() {
                return c;
            }
        },
        None => {},
    }
    if text_equal(command.command_kind.as_str(), "send_voice_note") {
        "Voice note".to_owned()
    } else {
        let filename = text_or(str_value(&command.payload, "filename"), "attachment.bin");
        joined("Media attachment: ", filename.as_str())
    }
}

/// The ingest of a fixture command whose kind needs no provider message
/// and no text check.
fn sent_message_ingest(
    command: &WhatsAppProviderWriteCommand,
    text: String,
    reply_to: Option<String>,
    origin_chat: Option<String>,
    origin_message: Option<String>,
    forwarded: bool,
) -> (i: FixtureCommandIngest)
    ensures
        ingest_view(i) == sent_message(
            command.command_id@,
            text@,
            opt_text(reply_to),
            opt_text(origin_chat),
            opt_text(origin_message),
            forwarded,
        ),
{
    FixtureCommandIngest::Message {
        provider_message_id: joined("provider-message:", command.command_id.as_str()),
        text,
        reply_to_provider_message_id: reply_to,
        forward_origin_chat_id: origin_chat,
        forward_origin_message_id: origin_message,
        forwarded,
    }
}

fn is_dialog_command(kind: &str) -> (d: bool)
    ensures
        d == is_dialog_kind(kind@),
{
    text_equal(kind, "archive") || text_equal(kind, "unarchive") || text_equal(kind, "pin") || text_equal(
        kind,
        "unpin",
    ) || text_equal(kind, "mute") || text_equal(kind, "unmute") || text_equal(kind, "mark_read")
        || text_equal(kind, "mark_unread")
}

/// What a fixture command is ingested as: the kind's observation or the
/// reason the command cannot be executed.
fn fixture_command_ingest(command: &WhatsAppProviderWriteCommand) -> (r: Result<FixtureCommandIngest, String>)
    ensures
        match fixture_ingest_of(*command) {
            Ok(v) => r matches Ok(i) && ingest_view(i) == v,
            Err(m) => r matches Err(e) && e@ == m,
        },
{
    let kind = command.command_kind.as_str();
    let id = command.command_id.as_str();
    if text_equal(kind, "edit") {
        let m = required_text(command.provider_message_id.clone(), "provider_message_id is required")?;
        let t = required_text(str_value(&command.payload, "text"), "payload.text is required")?;
        Ok(FixtureCommandIngest::MessageUpdate { provider_message_id: m, text: t })
    } else if text_equal(kind, "send_text") || text_equal(kind, "reply") {
        let t = required_text(str_value(&command.payload, "text"), "payload.text is required")?;
        let reply_to = if text_equal(kind, "reply") {
            str_value(&command.payload, "reply_to_provider_message_id")
        } else {
            None
        };
        Ok(sent_message_ingest(command, t, reply_to, None, None, false))
    } else if text_equal(kind, "forward") {
        let origin_chat = str_value(&command.payload, "from_provider_chat_id");
        let origin_message = str_value(&command.payload, "from_provider_message_id");
        Ok(sent_message_ingest(command, "Forwarded message".to_owned(), None, origin_chat, origin_message, true))
    } else if text_equal(kind, "send_media") || text_equal(kind, "send_voice_note") {
        Ok(
            FixtureCommandIngest::MediaMessage {
                provider_message_id: joined("provider-message:", id),
                provider_attachment_id: joined("provider-attachment:", id),
                text: media_text(command),
            },
        )
    } else if text_equal(kind, "download_media") {
        let m = required_text(command.provider_message_id.clone(), "provider_message_id is required")?;
        let attachment = match str_value(&command.payload, "provider_attachment_id") {
            Some(a) => a,
            None => text_or(str_value(&command.target_ref, "provider_attachment_id"), id),
        };
        let mut path = joined("whatsapp/fixture/downloads/", id);
        path = joined(path.as_str(), ".bin");
        proof {
            assert(("whatsapp/fixture/downloads/"@ + id@) + ".bin"@ =~= "whatsapp/fixture/downloads/"@ + id@
                + ".bin"@);
        }
        Ok(
            FixtureCommandIngest::MediaDownload {
                provider_message_id: m,
                provider_attachment_id: attachment,
                filename: str_value(&command.payload, "filename"),
                content_type: text_or(str_value(&command.payload, "content_type"), "application/octet-stream"),
                sha256: fixture_media_sha256(id),
                storage_kind: "local_fs".to_owned(),
                storage_path: path,
            },
        )
    } else if text_equal(kind, "delete") {
        let m = required_text(command.provider_message_id.clone(), "provider_message_id is required")?;
        Ok(FixtureCommandIngest::MessageDelete { provider_message_id: m })
    } else if text_equal(kind, "react") || text_equal(kind, "unreact") {
        let m = required_text(command.provider_message_id.clone(), "provider_message_id is required")?;
        let r = required_text(str_value(&command.payload, "reaction_emoji"), "payload.reaction_emoji is required")?;
        Ok(FixtureCommandIngest::Reaction { provider_message_id: m, reaction: r, is_active: text_equal(kind, "react") })
    } else if is_dialog_command(kind) {
        let is_muted = if text_equal(kind, "mute") {
            Some(true)
        } else if text_equal(kind, "unmute") {
            Some(false)
        } else {
            None
        };
        let is_unread = if text_equal(kind, "mark_unread") {
            Some(true)
        } else if text_equal(kind, "mark_read") {
            Some(false)
        } else {
            None
        };
        Ok(
            FixtureCommandIngest::Dialog {
                chat_title: text_or(str_value(&command.target_ref, "chat_title"), command.provider_chat_id.as_str()),
                chat_kind: text_or(str_value(&command.target_ref, "chat_kind"), "private"),
                is_archived: text_equal(kind, "archive"),
                is_pinned: text_equal(kind, "pin"),
                is_muted,
                is_unread,
            },
        )
    } else if text_equal(kind, "join_group") || text_equal(kind, "leave_group") {
        let status = if text_equal(kind, "join_group") {
            "member".to_owned()
        } else {
            "left".to_owned()
        };
        Ok(
            FixtureCommandIngest::Participant {
                chat_title: text_or(str_value(&command.target_ref, "chat_title"), command.provider_chat_id.as_str()),
                chat_kind: text_or(str_value(&command.target_ref, "chat_kind"), "group"),
                provider_member_id: joined("self-member:", command.account_id.as_str()),
                provider_identity_id: joined("self-identity:", command.account_id.as_str()),
                status,
            },
        )
    } else if text_equal(kind, "publish_status") {
        Ok(
            FixtureCommandIngest::Status {
                provider_status_id: joined("provider-status:", id),
                text: required_text(str_value(&command.payload, "text"), "payload.text is required"),
            },
        )
    } else {
        let head = joined("unsupported fixture command executor kind `", kind);
        Err(joined(head.as_str(), "`"))
    }
}

/// What executing `command` on a fixture account records: its import batch
/// and the observation its kind is ingested as, or the reason it cannot be
/// executed.
pub fn fixture_command_ingest_plan(command: &WhatsAppProviderWriteCommand) -> (plan: Result<
    FixtureCommandIngestPlan,
    String,
>)
    ensures
        match fixture_ingest_of(*command) {
            Ok(v) => plan matches Ok(p) && ingest_view(p.ingest) == v && p.import_batch_id@ == import_batch_of(
                command.account_id@,
                command.command_id@,
            ),
            Err(m) => plan matches Err(e) && e@ == m,
        },
{
    let head = joined("whatsapp-command:", command.account_id.as_str());
    let head = joined(head.as_str(), ":");
    let import_batch_id = joined(head.as_str(), command.command_id.as_str());
    let ingest = fixture_command_ingest(command)?;
    Ok(FixtureCommandIngestPlan { import_batch_id, ingest })
}

/// What a live native media download records, once its bytes are checked.
#[derive(Debug, PartialEq, Eq)]
pub struct MediaDownloadObservation {
    pub bytes: Vec<u8>,
    pub provider_message_id: String,
    pub provider_attachment_id: String,
    pub content_type: String,
    pub filename: Option<String>,
    pub import_batch_id: String,
}

/// The provider message a download belongs to: the command's own, else the
/// one its target reference names; trimmed, and not blank.
pub open spec fn download_message_id_of(c: WhatsAppProviderWriteCommand) -> Option<Seq<char>> {
    let raw = match c.provider_message_id {
        Some(m) => Some(m@),
        None => str_at(c.target_ref, "provider_message_id"@),
    };
    match raw {
        Some(m) => if trim_chars(m).len() > 0 {
            Some(trim_chars(m))
        } else {
            None
        },
        None => None,
    }
}

/// The import batch of a live native download.
pub open spec fn download_batch_of(account_id: Seq<char>, command_id: Seq<char>) -> Seq<char> {
    "whatsapp-native-md-download:"@ + account_id + ":"@ + command_id
}

/// The checks on a live native download, in order: bytes were returned,
/// they are not empty, and the download names its provider message.
pub open spec fn download_error_of(c: WhatsAppProviderWriteCommand, bytes: Option<Seq<u8>>) -> Option<
    (Seq<char>, Seq<char>),
> {
    match bytes {
        None => Some(
            (
                "native_md_downloaded_media_bytes_missing"@,
                "native_md media download returned no in-memory bytes for local blob persistence"@,
            ),
        ),
        Some(b) => if b.len() == 0 {
            Some(("native_md_downloaded_media_bytes_empty"@, "native_md media download returned an empty byte payload"@))
        } else if download_message_id_of(c) is None {
            Some(
                (
                    "native_md_download_requires_provider_message_id"@,
                    "native_md media download requires provider_message_id before projection"@,
                ),
            )
        } else {
            None
        },
    }
}

fn download_failure(code: &'static str, message: &str) -> (e: WhatsAppProviderCommandExecutionError)
    ensures
        e.code@ == code@,
        e.message@ == message@,
{
    WhatsAppProviderCommandExecutionError { code, message: message.to_owned() }
}

/// Checks what a live native download returned and gives what its media
/// observation records: the bytes, the provider message and attachment, the
/// content type (the command's, else the one `result_payload` reports, else
/// `application/octet-stream`), the payload's file name and the import
/// batch.
pub fn live_media_download_observation(
    command: &WhatsAppProviderWriteCommand,
    bytes: Option<Vec<u8>>,
    result_payload: &JsonValue,
) -> (r: Result<MediaDownloadObservation, WhatsAppProviderCommandExecutionError>)
    ensures
        match download_error_of(*command, match bytes {
            Some(b) => Some(b@),
            None => None,
        }) {
            Some((code, message)) => r matches Err(e) && e.code@ == code && e.message@ == message,
            None => r matches Ok(o) && {
                &&& o.bytes == bytes->0
                &&& Some(o.provider_message_id@) == download_message_id_of(*command)
                &&& o.provider_attachment_id@ == or_text(
                    or_else(
                        command_value(*command, "provider_attachment_id"@),
                        command_value(*command, "provider_media_id"@),
                    ),
                    command.command_id@,
                )
                &&& o.content_type@ == or_text(
                    or_else(command_value(*command, "content_type"@), reported_content_type(json_view(*result_payload))),
                    "application/octet-stream"@,
                )
                &&& opt_text(o.filename) == str_at(command.payload, "filename"@)
                &&& o.import_batch_id@ == download_batch_of(command.account_id@, command.command_id@)
            },
        },
{
    let bytes = match bytes {
        Some(b) => b,
        None => {
            return Err(
                download_failure(
                    "native_md_downloaded_media_bytes_missing",
                    "native_md media download returned no in-memory bytes for local blob persistence",
                ),
            );
        },
    };
    if bytes.len() == 0 {
        return Err(
            download_failure("native_md_downloaded_media_bytes_empty", "native_md media download returned an empty byte payload"),
        );
    }
    let raw = match &command.provider_message_id {
        Some(m) => Some(m.clone()),
        None => str_value(&command.target_ref, "provider_message_id"),
    };
    assert(opt_text(raw) == match command.provider_message_id {
        Some(m) => Some(m@),
        None => str_at(command.target_ref, "provider_message_id"@),
    });
    let provider_message_id = match raw {
        Some(m) => trim_text(m.as_str()),
        None => {
            return Err(
                download_failure(
                    "native_md_download_requires_provider_message_id",
                    "native_md media download requires provider_message_id before projection",
                ),
            );
        },
    };
    if provider_message_id.as_str().is_empty() {
        return Err(
            download_failure(
                "native_md_download_requires_provider_message_id",
                "native_md media download requires provider_message_id before projection",
            ),
        );
    }
    let head = joined("whatsapp-native-md-download:", command.account_id.as_str());
    let head = joined(head.as_str(), ":");
    let attachment = media_download_provider_attachment_id(command);
    let content_type = media_download_content_type(command, result_payload);
    let import_batch_id = joined(head.as_str(), command.command_id.as_str());
    Ok(
        MediaDownloadObservation {
            bytes,
            provider_message_id,
            provider_attachment_id: attachment,
            content_type,
            filename: str_value(&command.payload, "filename"),
            import_batch_id,
        },
    )
}

/// The command kinds, told apart by their lengths and first letters.
proof fn lemma_kind_names()
    ensures
        "edit"@.len() == 4,
        "edit"@[0] == 'e',
        "send_text"@.len() == 9,
        "send_text"@[0] == 's',
        "reply"@.len() == 5,
        "reply"@[0] == 'r',
        "forward"@.len() == 7,
        "forward"@[0] == 'f',
        "send_media"@.len() == 10,
        "send_media"@[0] == 's',
        "send_voice_note"@.len() == 15,
        "send_voice_note"@[0] == 's',
        "download_media"@.len() == 14,
        "download_media"@[0] == 'd',
        "delete"@.len() == 6,
        "delete"@[0] == 'd',
        "react"@.len() == 5,
        "react"@[0] == 'r',
        "unreact"@.len() == 7,
        "unreact"@[0] == 'u',
        "archive"@.len() == 7,
        "archive"@[0] == 'a',
        "unarchive"@.len() == 9,
        "unarchive"@[0] == 'u',
        "pin"@.len() == 3,
        "pin"@[0] == 'p',
        "unpin"@.len() == 5,
        "unpin"@[0] == 'u',
        "mute"@.len() == 4,
        "mute"@[0] == 'm',
        "unmute"@.len() == 6,
        "unmute"@[0] == 'u',
        "mark_read"@.len() == 9,
        "mark_read"@[0] == 'm',
        "mark_unread"@.len() == 11,
        "mark_unread"@[0] == 'm',
        "join_group"@.len() == 10,
        "join_group"@[0] == 'j',
        "leave_group"@.len() == 11,
        "leave_group"@[0] == 'l',
        "publish_status"@.len() == 14,
        "publish_status"@[0] == 'p',
        "reply"@[2] == 'p',
        "react"@[2] == 'a',
{
    reveal_strlit("edit");
    reveal_strlit("send_text");
    reveal_strlit("reply");
    reveal_strlit("forward");
    reveal_strlit("send_media");
    reveal_strlit("send_voice_note");
    reveal_strlit("download_media");
    reveal_strlit("delete");
    reveal_strlit("react");
    reveal_strlit("unreact");
    reveal_strlit("archive");
    reveal_strlit("unarchive");
    reveal_strlit("pin");
    reveal_strlit("unpin");
    reveal_strlit("mute");
    reveal_strlit("unmute");
    reveal_strlit("mark_read");
    reveal_strlit("mark_unread");
    reveal_strlit("join_group");
    reveal_strlit("leave_group");
    reveal_strlit("publish_status");
}

/// The kinds of command that the fixture executor knows.
pub open spec fn known_kind(kind: Seq<char>) -> bool {
    kind == "edit"@ || kind == "send_text"@ || kind == "reply"@ || kind == "forward"@ || kind == "send_media"@ || kind == "send_voice_note"@ || kind == "download_media"@ || kind == "delete"@ || kind == "react"@ || kind == "unreact"@ || kind == "archive"@ || kind == "unarchive"@ || kind == "pin"@ || kind == "unpin"@ || kind == "mute"@ || kind == "unmute"@ || kind == "mark_read"@ || kind == "mark_unread"@ || kind == "join_group"@ || kind == "leave_group"@ || kind == "publish_status"@
}

/// Law: a reaction command records a reaction that is set by `react` and
/// taken back by `unreact`, on the command's provider message, with the
/// payload's emoji.
pub proof fn lemma_reaction_follows_kind(c: WhatsAppProviderWriteCommand, m: String, emoji: Seq<char>)
    requires
        c.command_kind@ == "react"@ || c.command_kind@ == "unreact"@,
        c.provider_message_id == Some(m),
        str_at(c.payload, "reaction_emoji"@) == Some(emoji),
    ensures
        fixture_ingest_of(c) == Ok::<IngestView, Seq<char>>(
            IngestView::Reaction(m@, emoji, c.command_kind@ == "react"@),
        ),
        c.command_kind@ == "react"@ ==> fixture_ingest_of(c) matches Ok(IngestView::Reaction(_, _, true)),
        c.command_kind@ == "unreact"@ ==> fixture_ingest_of(c) matches Ok(IngestView::Reaction(_, _, false)),
{
    lemma_kind_names();
}

/// Law: a chat command changes exactly the flag it names: `archive` and
/// `pin` set theirs (and `unarchive`, `unpin` clear them); `mute`/`unmute`
/// set or clear muting and `mark_unread`/`mark_read` the unread mark, other
/// kinds leaving those two unknown. The chat is titled and kinded from the
/// target reference, else by its id and as private.
pub proof fn lemma_dialog_flags_follow_kind(c: WhatsAppProviderWriteCommand)
    requires
        c.command_kind@ == "archive"@ || c.command_kind@ == "unarchive"@ || c.command_kind@ == "pin"@
            || c.command_kind@ == "unpin"@ || c.command_kind@ == "mute"@ || c.command_kind@ == "unmute"@
            || c.command_kind@ == "mark_read"@ || c.command_kind@ == "mark_unread"@,
    ensures
        fixture_ingest_of(c) matches Ok(IngestView::Dialog(title, chat_kind, archived, pinned, muted, unread)) && {
            let k = c.command_kind@;
            &&& title == (match str_at(c.target_ref, "chat_title"@) {
                Some(t) => t,
                None => c.provider_chat_id@,
            })
            &&& chat_kind == (match str_at(c.target_ref, "chat_kind"@) {
                Some(t) => t,
                None => "private"@,
            })
            &&& archived == (k == "archive"@)
            &&& pinned == (k == "pin"@)
            &&& (k == "mute"@ ==> muted == Some(true))
            &&& (k == "unmute"@ ==> muted == Some(false))
            &&& (k != "mute"@ && k != "unmute"@ ==> muted is None)
            &&& (k == "mark_unread"@ ==> unread == Some(true))
            &&& (k == "mark_read"@ ==> unread == Some(false))
            &&& (k != "mark_read"@ && k != "mark_unread"@ ==> unread is None)
        },
{
    lemma_kind_names();
}

/// Law: joining a group records the account's own member as `member`, and
/// leaving it as `left`, under the account's `self-member:` and
/// `self-identity:` ids.
pub proof fn lemma_group_membership_follows_kind(c: WhatsAppProviderWriteCommand)
    requires
        c.command_kind@ == "join_group"@ || c.command_kind@ == "leave_group"@,
    ensures
        fixture_ingest_of(c) matches Ok(IngestView::Participant(_, _, member, identity, status)) && member
            == "self-member:"@ + c.account_id@ && identity == "self-identity:"@ + c.account_id@ && status == (if c.command_kind@
            == "join_group"@ {
            "member"@
        } else {
            "left"@
        }),
{
    lemma_kind_names();
}

/// Law: a command that acts on a stored message (an edit, a delete, a
/// reaction or a download) is refused when it names no provider message.
pub proof fn lemma_message_commands_need_a_provider_message(c: WhatsAppProviderWriteCommand)
    requires
        c.command_kind@ == "edit"@ || c.command_kind@ == "delete"@ || c.command_kind@ == "react"@
            || c.command_kind@ == "unreact"@ || c.command_kind@ == "download_media"@,
        c.provider_message_id is None,
    ensures
        fixture_ingest_of(c) == Err::<IngestView, Seq<char>>("provider_message_id is required"@),
{
    lemma_kind_names();
}

/// Law: every known kind is planned or refused for a missing field, and a
/// kind the executor does not know is refused, naming the kind.
pub proof fn lemma_unknown_kinds_are_refused(c: WhatsAppProviderWriteCommand)
    ensures
        !known_kind(c.command_kind@) ==> fixture_ingest_of(c) == Err::<IngestView, Seq<char>>(
            "unsupported fixture command executor kind `"@ + c.command_kind@ + "`"@,
        ),
        known_kind(c.command_kind@) ==> (fixture_ingest_of(c) is Ok || fixture_ingest_of(c) == Err::<IngestView, Seq<char>>("provider_message_id is required"@)
            || fixture_ingest_of(c) == Err::<IngestView, Seq<char>>("payload.text is required"@)
            || fixture_ingest_of(c) == Err::<IngestView, Seq<char>>("payload.reaction_emoji is required"@)),
{
    lemma_kind_names();
}

} // verus!
