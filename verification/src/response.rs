//! Judging the server's replies.
//!
//! Every endpoint answers with the same JSON shape,
//! `{success: bool, files: [{name, url}]}`. The caller turns the raw
//! HTTP result into a [`ServerReply`] and this module decides what it
//! means for the file: completed with a direct URL and a ledger entry
//! to append, or failed for a pinned-down reason.

use crate::ledger::spec_ledger_entry;
use crate::ledger::ledger_entry;
use vstd::prelude::*;

verus! {

/// The HTTP status the service answers with when it rate-limits.
pub const RATE_LIMIT_STATUS: u16 = 500;

/// One entry of the reply's `files` array.
pub struct FileRef {
    /// Name the service stored the file under.
    pub name: String,
    /// Permanent direct-access URL.
    pub url: String,
}

/// An upload or finish call's result, as seen by the logic: the
/// transport and JSON layers are already folded into one tag.
pub enum ServerReply {
    /// The request came back with a success status and a well-formed body.
    Parsed { success: bool, files: Vec<FileRef> },
    /// The request came back with a success status but an unreadable body.
    Malformed,
    /// The request never completed.
    TransportError,
    /// The request came back with a non-success status.
    HttpError { status: u16 },
}

/// Why a file failed this run.
#[derive(Debug, PartialEq, Eq, Structural)]
pub enum FailureKind {
    /// The service answered with its rate-limiting status.
    RateLimited,
    /// The service answered with some other non-success status.
    Http { status: u16 },
    /// The request never completed.
    Transport,
    /// The reply's body was not of the expected shape.
    Malformed,
    /// The reply was well-formed but named no files.
    NoFiles,
}

/// What one file's upload came to.
pub enum UploadOutcome {
    /// The file is stored: its URL, and the two ledger lines to append.
    Completed { url: String, entry: String },
    /// The file is not stored; nothing is appended to the ledger.
    Failed { kind: FailureKind },
}

/// Decides a file's fate from the final reply of its upload — the one
/// simple-path request, or the finish call of the chunked path. A
/// reply counts as completed exactly when it parsed and names at least
/// one file; the body's own `success` flag is carried but not
/// consulted, as the protocol decides by status and `files` alone.
/// `path` and `name` only feed the ledger entry handed back on success.
pub fn conclude_upload(reply: &ServerReply, path: &str, name: &str) -> (outcome: UploadOutcome)
    ensures
        match reply {
            ServerReply::Parsed { success: _, files } => {
                if files@.len() > 0 {
                    outcome matches UploadOutcome::Completed { url, entry } && url@
                        == files@[0].url@ && entry@ == spec_ledger_entry(path@, name@)
                } else {
                    outcome == (UploadOutcome::Failed { kind: FailureKind::NoFiles })
                }
            },
            ServerReply::Malformed => outcome == (UploadOutcome::Failed {
                kind: FailureKind::Malformed,
            }),
            ServerReply::TransportError => outcome == (UploadOutcome::Failed {
                kind: FailureKind::Transport,
            }),
            ServerReply::HttpError { status } => {
                if status == RATE_LIMIT_STATUS {
                    outcome == (UploadOutcome::Failed { kind: FailureKind::RateLimited })
                } else {
                    outcome == (UploadOutcome::Failed { kind: FailureKind::Http { status: *status } })
                }
            },
        },
{
    match reply {
        ServerReply::Parsed { success: _, files } => {
            if files.len() > 0 {
                let url = files[0].url.clone();
                let entry = ledger_entry(path, name);
                UploadOutcome::Completed { url, entry }
            } else {
                UploadOutcome::Failed { kind: FailureKind::NoFiles }
            }
        },
        ServerReply::Malformed => UploadOutcome::Failed { kind: FailureKind::Malformed },
        ServerReply::TransportError => UploadOutcome::Failed { kind: FailureKind::Transport },
        ServerReply::HttpError { status } => {
            if *status == RATE_LIMIT_STATUS {
                UploadOutcome::Failed { kind: FailureKind::RateLimited }
            } else {
                UploadOutcome::Failed { kind: FailureKind::Http { status: *status } }
            }
        },
    }
}

/// A reply's status rate-limits exactly when it is the dedicated
/// rate-limit status.
pub fn is_rate_limited(status: u16) -> (limited: bool)
    ensures
        limited == (status == RATE_LIMIT_STATUS),
{
    status == RATE_LIMIT_STATUS
}

} // verus!
