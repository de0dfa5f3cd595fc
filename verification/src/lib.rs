//! Verified core of a chunked-upload client.
//!
//! The library holds the upload engine's logic: routing each candidate file
//! (skip, reject, simple or chunked path), splitting bytes into fixed-size
//! chunks, driving the chunk-upload session as a state machine, judging the
//! server's replies, and modelling the append-only upload ledger. All I/O
//! (HTTP, filesystem, terminal) lives outside the library and hands plain
//! values in and out.

use vstd::prelude::*;

pub mod candidate;
pub mod chunks;
pub mod ledger;
pub mod orchestrator;
pub mod response;
pub mod session;

verus! {

/// Fixed size of every chunk but the last, in bytes.
pub const CHUNK_SIZE: u64 = 25_000_000;

/// Files of this size or more are refused before any upload attempt.
pub const MAX_UPLOAD_SIZE: u64 = 2_000_000_000;

} // verus!
