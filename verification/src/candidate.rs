//! Upload candidates.
//!
//! The facts measured once per input file before processing starts and
//! immutable afterwards: display name, byte size and MIME type. The
//! file's absolute path travels beside these, as the callers hand it
//! around separately.

use vstd::prelude::*;

verus! {

/// The measured facts of one file put forward for upload.
pub struct FileInfo {
    /// Display name: the file's base name.
    pub name: String,
    /// Size of the file in bytes.
    pub size: u64,
    /// MIME type sent with the upload.
    pub mime_type: String,
}

/// Picks the MIME type for a candidate: the caller's override when one
/// was given, otherwise the detected type.
pub fn resolve_mime_type(custom: Option<String>, detected: String) -> (mime: String)
    ensures
        match custom {
            Some(c) => mime@ == c@,
            None => mime@ == detected@,
        },
{
    match custom {
        Some(c) => c,
        None => detected,
    }
}

} // verus!
