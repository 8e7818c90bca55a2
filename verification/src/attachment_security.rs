//! Diagnostics and input checks of the attachment security persistence and
//! scanner.

use vstd::prelude::*;
use crate::text::trim_chars;

verus! {

/// Explicit disposable-database access for live conformance runs.
#[derive(Clone, Copy, Debug, PartialEq, Eq, Structural)]
pub struct AttachmentSecurityPersistenceConformanceV1;

/// Row counts of the attachment security tables.
#[derive(Clone, Copy, Debug, PartialEq, Eq, Structural)]
pub struct AttachmentSecurityPersistenceDiagnosticsV1 {
    pub candidates: i64,
    pub canonical_states: i64,
    pub jobs: i64,
    pub attempts: i64,
    pub target_blob_receipts: i64,
    pub outbox: i64,
}

/// The state of one scan job.
#[derive(Clone, Copy, Debug, PartialEq, Eq, Structural)]
pub struct AttachmentSecurityScanJobDiagnosticsV1 {
    pub state: i16,
    pub attempt_count: u32,
    pub target_blob_receipt_present: bool,
    pub outbox_message_id_present: bool,
    pub claimed: bool,
}

/// Why the scan adapter could not scan.
#[derive(Clone, Copy, Debug, PartialEq, Eq, Structural)]
pub enum AttachmentSecurityScanAdapterErrorV1 {
    InvalidConfiguration,
    Unavailable,
}

/// Whether conformance connection input is usable: host, user name and
/// database id must not be blank, the port not zero, the password not
/// empty.
pub open spec fn connection_input_is_valid(
    host: Seq<char>,
    port: u16,
    username: Seq<char>,
    password: Seq<char>,
    database_id: Seq<char>,
) -> bool {
    &&& trim_chars(host).len() > 0
    &&& port != 0
    &&& trim_chars(username).len() > 0
    &&& password.len() > 0
    &&& trim_chars(database_id).len() > 0
}

impl AttachmentSecurityPersistenceConformanceV1 {
    /// Whether the input of a conformance connection is usable; a
    /// connection is attempted only when it is, and refused as invalid
    /// input otherwise.
    pub fn connection_input_is_valid(
        host: &str,
        port: u16,
        username: &str,
        password: &str,
        database_id: &str,
    ) -> (valid: bool)
        ensures
            valid == connection_input_is_valid(host@, port, username@, password@, database_id@),
    {
        !(crate::text::trimmed_chars(host).len() == 0 || port == 0
            || crate::text::trimmed_chars(username).len() == 0 || password.is_empty()
            || crate::text::trimmed_chars(database_id).len() == 0)
    }
}

} // verus!
