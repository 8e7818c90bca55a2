//! Readings of provider account configuration documents.

use vstd::prelude::*;
use crate::json::{
    as_bool_view, json_as_bool, json_get, json_view, lookup, trimmed_string_field,
    trimmed_string_field_of, JsonValue,
};

verus! {

/// Whether Gmail API sending is switched on: `gmail_send_enabled` must be
/// `true`; anything else, or nothing, means off.
pub fn gmail_send_enabled(config: &JsonValue) -> (enabled: bool)
    ensures
        enabled == (as_bool_view(lookup(json_view(*config), "gmail_send_enabled"@)) == Some(true)),
{
    match json_as_bool(json_get(config, "gmail_send_enabled")) {
        Some(b) => b,
        None => false,
    }
}

/// The Gmail API base URL: the trimmed `gmail_api_base_url` when it is a
/// non-blank string, otherwise `https://www.googleapis.com`.
pub fn gmail_api_base_url(config: &JsonValue) -> (url: String)
    ensures
        url@ == match trimmed_string_field(json_view(*config), "gmail_api_base_url"@) {
            Some(u) => u,
            None => "https://www.googleapis.com"@,
        },
{
    match trimmed_string_field_of(config, "gmail_api_base_url") {
        Some(u) => u,
        None => "https://www.googleapis.com".to_owned(),
    }
}

/// A Zulip account whose configuration lacks a usable field.
#[derive(Clone, Debug, PartialEq, Eq)]
pub struct ZulipAccountConfigError {
    pub account_id: String,
    pub field: &'static str,
}

/// The Zulip server base URL of an account: the trimmed `base_url` when it
/// is a non-blank string; otherwise the account's configuration is refused
/// for that field.
pub fn zulip_base_url(account_id: &str, config: &JsonValue) -> (result: Result<
    String,
    ZulipAccountConfigError,
>)
    ensures
        match trimmed_string_field(json_view(*config), "base_url"@) {
            Some(u) => result matches Ok(url) && url@ == u,
            None => result matches Err(e) && e.account_id@ == account_id@ && e.field@
                == "base_url"@,
        },
{
    match trimmed_string_field_of(config, "base_url") {
        Some(u) => Ok(u),
        None => Err(ZulipAccountConfigError { account_id: account_id.to_owned(), field: "base_url" }),
    }
}

} // verus!
