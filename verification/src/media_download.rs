//! The WhatsApp native media download reference: which command fields name
//! the media, and how the host-vault secret that describes a download is
//! checked and read.

use vstd::prelude::*;
use vstd::utf8::encode_utf8;
use crate::json::{
    as_i64_view, as_str_view, as_u64_view, json_as_i64, json_as_str, json_as_u64, json_get,
    json_view, lookup, trimmed_string_field, trimmed_string_field_of, JsonValue, JsonView,
};
use crate::text::{append_text, string_from_chars, text_equal, trim_chars, trim_text};
use base64::Engine;

verus! {

/// The bytes that standard, padded base64 `input` decodes to, when it is
/// valid base64.
pub uninterp spec fn base64_standard_decoded(input: Seq<u8>) -> Option<Seq<u8>>;

/// `base64::engine::general_purpose::STANDARD.decode`: the bytes of padded
/// standard base64 text, or `None` when the text is not valid base64.
#[verifier::external_body]
fn base64_standard_decode(input: &[u8]) -> (decoded: Option<Vec<u8>>)
    ensures
        match decoded {
            Some(bytes) => base64_standard_decoded(input@) == Some(bytes@),
            None => base64_standard_decoded(input@) is None,
        },
{
    base64::engine::general_purpose::STANDARD.decode(input).ok()
}

/// A provider write command, as far as its execution reads it.
pub struct WhatsAppProviderWriteCommand {
    pub command_id: String,
    pub account_id: String,
    pub command_kind: String,
    pub provider_chat_id: String,
    pub provider_message_id: Option<String>,
    pub payload: JsonValue,
    pub target_ref: JsonValue,
}

/// Why a provider command could not be executed.
#[derive(Clone, Debug, PartialEq, Eq)]
pub struct WhatsAppProviderCommandExecutionError {
    pub code: &'static str,
    pub message: String,
}

/// A checked media download reference.
#[derive(Clone, Debug, PartialEq, Eq)]
pub struct WhatsAppProviderMediaDownloadRef {
    pub secret_ref: String,
    pub provider_media_ref_fingerprint: String,
    pub media_type: String,
    pub content_type: String,
    pub file_length: u64,
    pub file_sha256: Vec<u8>,
    pub file_enc_sha256: Vec<u8>,
    pub direct_path: String,
    pub static_url: Option<String>,
    pub media_key: Vec<u8>,
    pub media_key_timestamp: Option<i64>,
}

/// An error as the contracts see it: its code and its message.
pub type ErrorView = (Seq<char>, Seq<char>);

pub open spec fn error_view(e: WhatsAppProviderCommandExecutionError) -> ErrorView {
    (e.code@, e.message@)
}

/// A media download reference as the contracts see it.
pub struct MediaDownloadRefView {
    pub secret_ref: Seq<char>,
    pub provider_media_ref_fingerprint: Seq<char>,
    pub media_type: Seq<char>,
    pub content_type: Seq<char>,
    pub file_length: u64,
    pub file_sha256: Seq<u8>,
    pub file_enc_sha256: Seq<u8>,
    pub direct_path: Seq<char>,
    pub static_url: Option<Seq<char>>,
    pub media_key: Seq<u8>,
    pub media_key_timestamp: Option<i64>,
}

pub open spec fn ref_view(r: WhatsAppProviderMediaDownloadRef) -> MediaDownloadRefView {
    MediaDownloadRefView {
        secret_ref: r.secret_ref@,
        provider_media_ref_fingerprint: r.provider_media_ref_fingerprint@,
        media_type: r.media_type@,
        content_type: r.content_type@,
        file_length: r.file_length,
        file_sha256: r.file_sha256@,
        file_enc_sha256: r.file_enc_sha256@,
        direct_path: r.direct_path@,
        static_url: match r.static_url {
            Some(u) => Some(u@),
            None => None,
        },
        media_key: r.media_key@,
        media_key_timestamp: r.media_key_timestamp,
    }
}

/// The trimmed, non-blank text a command gives for `field`: its payload's
/// string if the payload has one there, otherwise its target reference's.
pub open spec fn command_value(command: WhatsAppProviderWriteCommand, field: Seq<char>) -> Option<
    Seq<char>,
> {
    let raw = match as_str_view(lookup(json_view(command.payload), field)) {
        Some(s) => Some(s),
        None => as_str_view(lookup(json_view(command.target_ref), field)),
    };
    match raw {
        Some(s) => if trim_chars(s).len() > 0 {
            Some(trim_chars(s))
        } else {
            None
        },
        None => None,
    }
}

/// The text of `field` in the command's payload or target reference.
pub fn command_value_string(command: &WhatsAppProviderWriteCommand, field: &str) -> (value: Option<
    String,
>)
    ensures
        match value {
            Some(v) => command_value(*command, field@) == Some(v@),
            None => command_value(*command, field@) is None,
        },
{
    let raw = match json_as_str(json_get(&command.payload, field)) {
        Some(s) => Some(s),
        None => json_as_str(json_get(&command.target_ref, field)),
    };
    match raw {
        Some(s) => {
            let t = trim_text(s);
            if t.as_str().is_empty() {
                None
            } else {
                Some(t)
            }
        },
        None => None,
    }
}

/// The first of two optional texts that is present.
pub open spec fn or_else(a: Option<Seq<char>>, b: Option<Seq<char>>) -> Option<Seq<char>> {
    match a {
        Some(x) => Some(x),
        None => b,
    }
}

/// The provider attachment id of a media download: the command's
/// `provider_attachment_id`, else its `provider_media_id`, else the command
/// id.
pub fn media_download_provider_attachment_id(command: &WhatsAppProviderWriteCommand) -> (id: String)
    ensures
        id@ == match or_else(
            command_value(*command, "provider_attachment_id"@),
            command_value(*command, "provider_media_id"@),
        ) {
            Some(v) => v,
            None => command.command_id@,
        },
{
    match command_value_string(command, "provider_attachment_id") {
        Some(v) => v,
        None => match command_value_string(command, "provider_media_id") {
            Some(v) => v,
            None => command.command_id.clone(),
        },
    }
}

/// The content type the provider reported at
/// `/provider_submission/operation/content_type`, trimmed, if not blank.
pub open spec fn reported_content_type(result_payload: JsonView) -> Option<Seq<char>> {
    match lookup(result_payload, "provider_submission"@) {
        Some(submission) => match lookup(submission, "operation"@) {
            Some(operation) => trimmed_string_field(operation, "content_type"@),
            None => None,
        },
        None => None,
    }
}

/// The content type of downloaded media: the command's `content_type`,
/// else the one the provider reported, else `application/octet-stream`.
pub fn media_download_content_type(
    command: &WhatsAppProviderWriteCommand,
    result_payload: &JsonValue,
) -> (content_type: String)
    ensures
        content_type@ == match or_else(
            command_value(*command, "content_type"@),
            reported_content_type(json_view(*result_payload)),
        ) {
            Some(v) => v,
            None => "application/octet-stream"@,
        },
{
    if let Some(v) = command_value_string(command, "content_type") {
        return v;
    }
    let reported = match json_get(result_payload, "provider_submission") {
        Some(submission) => match json_get(submission, "operation") {
            Some(operation) => trimmed_string_field_of(operation, "content_type"),
            None => None,
        },
        None => None,
    };
    match reported {
        Some(v) => v,
        None => "application/octet-stream".to_owned(),
    }
}

/// The message of a refused download reference field.
pub open spec fn ref_error_message(field: Seq<char>, reason: Seq<char>) -> Seq<char> {
    "WhatsApp media download ref host-vault field `"@ + field + "` is "@ + reason
}

/// The error for a download reference `field` that is `reason`.
pub open spec fn ref_error(field: Seq<char>, reason: Seq<char>) -> ErrorView {
    ("native_md_media_download_ref_invalid"@, ref_error_message(field, reason))
}

/// The error for a download reference field that holds invalid base64.
pub open spec fn base64_error(field: Seq<char>) -> ErrorView {
    (
        "native_md_media_download_ref_invalid_base64"@,
        "WhatsApp media download ref host-vault field `"@ + field + "` is invalid base64"@,
    )
}

/// The error for a download reference `field` that is `reason`.
pub fn media_download_ref_error(field: &str, reason: &str) -> (error:
    WhatsAppProviderCommandExecutionError)
    ensures
        error_view(error) == ref_error(field@, reason@),
{
    let mut message: Vec<char> = Vec::new();
    append_text(&mut message, "WhatsApp media download ref host-vault field `");
    append_text(&mut message, field);
    append_text(&mut message, "` is ");
    append_text(&mut message, reason);
    WhatsAppProviderCommandExecutionError {
        code: "native_md_media_download_ref_invalid",
        message: string_from_chars(message.as_slice()),
    }
}

/// A required string field of the download secret: its trimmed text, or
/// the error that it is missing.
pub open spec fn required_string(payload: JsonView, field: Seq<char>) -> Result<Seq<char>, ErrorView> {
    match trimmed_string_field(payload, field) {
        Some(v) => Ok(v),
        None => Err(ref_error(field, "missing"@)),
    }
}

/// The trimmed text of a required string field of the download secret.
pub fn required_secret_string(payload: &JsonValue, field: &str) -> (result: Result<
    String,
    WhatsAppProviderCommandExecutionError,
>)
    ensures
        match required_string(json_view(*payload), field@) {
            Ok(v) => result matches Ok(s) && s@ == v,
            Err(e) => result matches Err(err) && error_view(err) == e,
        },
{
    match trimmed_string_field_of(payload, field) {
        Some(v) => Ok(v),
        None => Err(media_download_ref_error(field, "missing")),
    }
}

/// A required base64 field of the download secret: the bytes it encodes.
pub open spec fn required_base64(payload: JsonView, field: Seq<char>) -> Result<Seq<u8>, ErrorView> {
    match required_string(payload, field) {
        Ok(text) => match base64_standard_decoded(encode_utf8(text)) {
            Some(bytes) => Ok(bytes),
            None => Err(base64_error(field)),
        },
        Err(e) => Err(e),
    }
}

/// The bytes that a required base64 field of the download secret encodes.
pub fn required_secret_base64(payload: &JsonValue, field: &str) -> (result: Result<
    Vec<u8>,
    WhatsAppProviderCommandExecutionError,
>)
    ensures
        match required_base64(json_view(*payload), field@) {
            Ok(v) => result matches Ok(bytes) && bytes@ == v,
            Err(e) => result matches Err(err) && error_view(err) == e,
        },
{
    let encoded = match required_secret_string(payload, field) {
        Ok(s) => s,
        Err(e) => return Err(e),
    };
    match base64_standard_decode(encoded.as_str().as_bytes()) {
        Some(bytes) => Ok(bytes),
        None => {
            let mut message: Vec<char> = Vec::new();
            append_text(&mut message, "WhatsApp media download ref host-vault field `");
            append_text(&mut message, field);
            append_text(&mut message, "` is invalid base64");
            Err(
                WhatsAppProviderCommandExecutionError {
                    code: "native_md_media_download_ref_invalid_base64",
                    message: string_from_chars(message.as_slice()),
                },
            )
        },
    }
}

/// What `media_download_ref_from_secret_payload` gives: the reference, or
/// the first check that fails, in the order the fields are read.
pub open spec fn download_ref_of(
    command: WhatsAppProviderWriteCommand,
    secret_ref: Seq<char>,
    p: JsonView,
) -> Result<MediaDownloadRefView, ErrorView> {
    match as_i64_view(lookup(p, "version"@)) {
        None => Err(ref_error("version"@, "missing_or_invalid"@)),
        Some(version) => if version != 1 {
            Err(ref_error("version"@, "unsupported"@))
        } else {
            match required_string(p, "account_id"@) {
                Err(e) => Err(e),
                Ok(account_id) => if account_id != command.account_id@ {
                    Err(ref_error("account_id"@, "mismatch"@))
                } else {
                    match required_string(p, "secret_purpose"@) {
                        Err(e) => Err(e),
                        Ok(purpose) => if purpose != "whatsapp_media_download_ref"@ {
                            Err(ref_error("secret_purpose"@, "mismatch"@))
                        } else {
                            match required_string(p, "provider_shape"@) {
                                Err(e) => Err(e),
                                Ok(shape) => if shape != "whatsapp_native_md"@ {
                                    Err(ref_error("provider_shape"@, "unsupported"@))
                                } else {
                                    download_ref_fields(command, secret_ref, p)
                                },
                            }
                        },
                    }
                },
            }
        },
    }
}

/// The fields of a download reference whose owner checks passed.
pub open spec fn download_ref_fields(
    command: WhatsAppProviderWriteCommand,
    secret_ref: Seq<char>,
    p: JsonView,
) -> Result<MediaDownloadRefView, ErrorView> {
    match required_string(p, "direct_path"@) {
        Err(e) => Err(e),
        Ok(direct_path) => match required_base64(p, "media_key_base64"@) {
            Err(e) => Err(e),
            Ok(media_key) => match required_base64(p, "file_sha256_base64"@) {
                Err(e) => Err(e),
                Ok(file_sha256) => match required_base64(p, "file_enc_sha256_base64"@) {
                    Err(e) => Err(e),
                    Ok(file_enc_sha256) => match as_u64_view(lookup(p, "file_length"@)) {
                        None => Err(ref_error("file_length"@, "missing_or_invalid"@)),
                        Some(file_length) => match required_string(p, "media_type"@) {
                            Err(e) => Err(e),
                            Ok(media_type) => match or_else(
                                or_else(
                                    trimmed_string_field(p, "provider_media_ref_fingerprint"@),
                                    command_value(command, "provider_media_ref_fingerprint"@),
                                ),
                                command_value(command, "provider_media_id"@),
                            ) {
                                None => Err(
                                    ref_error("provider_media_ref_fingerprint"@, "missing"@),
                                ),
                                Some(fingerprint) => Ok(
                                    MediaDownloadRefView {
                                        secret_ref,
                                        provider_media_ref_fingerprint: fingerprint,
                                        media_type,
                                        content_type: match or_else(
                                            trimmed_string_field(p, "content_type"@),
                                            command_value(command, "content_type"@),
                                        ) {
                                            Some(c) => c,
                                            None => "application/octet-stream"@,
                                        },
                                        file_length,
                                        file_sha256,
                                        file_enc_sha256,
                                        direct_path,
                                        static_url: trimmed_string_field(p, "static_url"@),
                                        media_key,
                                        media_key_timestamp: as_i64_view(
                                            lookup(p, "media_key_timestamp"@),
                                        ),
                                    },
                                ),
                            },
                        },
                    },
                },
            },
        },
    }
}

/// Checks and reads the host-vault secret that describes a media download:
/// version 1, owned by the command's account, meant for media download
/// references, of the native provider shape, with every required field.
pub fn media_download_ref_from_secret_payload(
    command: &WhatsAppProviderWriteCommand,
    secret_ref: &str,
    payload: &JsonValue,
) -> (result: Result<WhatsAppProviderMediaDownloadRef, WhatsAppProviderCommandExecutionError>)
    ensures
        match download_ref_of(*command, secret_ref@, json_view(*payload)) {
            Ok(v) => result matches Ok(r) && ref_view(r) == v,
            Err(e) => result matches Err(err) && error_view(err) == e,
        },
{
    let version = match json_as_i64(json_get(payload, "version")) {
        Some(v) => v,
        None => return Err(media_download_ref_error("version", "missing_or_invalid")),
    };
    if version != 1 {
        return Err(media_download_ref_error("version", "unsupported"));
    }
    let account_id = required_secret_string(payload, "account_id")?;
    if !text_equal(account_id.as_str(), command.account_id.as_str()) {
        return Err(media_download_ref_error("account_id", "mismatch"));
    }
    let secret_purpose = required_secret_string(payload, "secret_purpose")?;
    if !text_equal(secret_purpose.as_str(), "whatsapp_media_download_ref") {
        return Err(media_download_ref_error("secret_purpose", "mismatch"));
    }
    let provider_shape = required_secret_string(payload, "provider_shape")?;
    if !text_equal(provider_shape.as_str(), "whatsapp_native_md") {
        return Err(media_download_ref_error("provider_shape", "unsupported"));
    }
    let direct_path = required_secret_string(payload, "direct_path")?;
    let media_key = required_secret_base64(payload, "media_key_base64")?;
    let file_sha256 = required_secret_base64(payload, "file_sha256_base64")?;
    let file_enc_sha256 = required_secret_base64(payload, "file_enc_sha256_base64")?;
    let file_length = match json_as_u64(json_get(payload, "file_length")) {
        Some(n) => n,
        None => return Err(media_download_ref_error("file_length", "missing_or_invalid")),
    };
    let media_type = required_secret_string(payload, "media_type")?;
    let content_type = match trimmed_string_field_of(payload, "content_type") {
        Some(c) => c,
        None => match command_value_string(command, "content_type") {
            Some(c) => c,
            None => "application/octet-stream".to_owned(),
        },
    };
    let provider_media_ref_fingerprint = match trimmed_string_field_of(
        payload,
        "provider_media_ref_fingerprint",
    ) {
        Some(f) => f,
        None => match command_value_string(command, "provider_media_ref_fingerprint") {
            Some(f) => f,
            None => match command_value_string(command, "provider_media_id") {
                Some(f) => f,
                None => {
                    return Err(
                        media_download_ref_error("provider_media_ref_fingerprint", "missing"),
                    );
                },
            },
        },
    };
    let static_url = trimmed_string_field_of(payload, "static_url");
    let media_key_timestamp = json_as_i64(json_get(payload, "media_key_timestamp"));
    Ok(
        WhatsAppProviderMediaDownloadRef {
            secret_ref: secret_ref.to_owned(),
            provider_media_ref_fingerprint,
            media_type,
            content_type,
            file_length,
            file_sha256,
            file_enc_sha256,
            direct_path,
            static_url,
            media_key,
            media_key_timestamp,
        },
    )
}

} // verus!
