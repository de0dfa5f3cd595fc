//! The chunked-upload session.
//!
//! One session lives for one file's chunked upload: a fresh session
//! identifier, the chunk geometry, and the progress made so far. The
//! caller asks for the fields of the next chunk request, reports each
//! request's outcome, and — once every index was attempted — asks for
//! the fields of the finish call. A failed chunk is skipped, never
//! retried, and its file is kept on disk; a delivered chunk's file is
//! deleted at once.

use crate::chunks::lemma_chunk_offset_in_payload;
use crate::chunks::chunk_count;
use crate::chunks::spec_chunk_count;
use rand::distr::SampleString;
use vstd::prelude::*;

verus! {

/// Relies on `uuid::Uuid::new_v4` and its `Display` impl: a version-4
/// identifier printed in the hyphenated form, which is always 36
/// characters long.
#[verifier::external_body]
fn fresh_session_id() -> (id: String)
    ensures
        id@.len() == 36,
{
    uuid::Uuid::new_v4().to_string()
}

/// Relies on `rand::distr::Alphanumeric`'s `SampleString` impl: a
/// string of exactly the requested number of random alphanumeric
/// ASCII characters.
#[verifier::external_body]
fn fresh_scratch_token() -> (token: String)
    ensures
        token@.len() == 10,
{
    rand::distr::Alphanumeric.sample_string(&mut rand::rng(), 10)
}

/// Path of this run's scratch directory: the resources directory, a
/// separator, and a fresh random 10-character token. The token keeps
/// concurrent runs from colliding, so only the shape of the result can
/// be promised.
pub fn scratch_dir_path(resources: &str) -> (dir: String)
    ensures
        dir@.len() == resources@.len() + 11,
        dir@.subrange(0, resources@.len() as int) == resources@,
        dir@[resources@.len() as int] == '/',
{
    proof {
        reveal_strlit("/");
    }
    let mut dir = resources.to_owned();
    dir.append("/");
    let token = fresh_scratch_token();
    dir.append(token.as_str());
    proof {
        assert(dir@.subrange(0, resources@.len() as int) =~= resources@);
    }
    dir
}

/// The multipart fields of one chunk request.
pub struct ChunkRequest {
    /// Session identifier correlating all of the file's requests.
    pub session_id: String,
    /// Zero-based index of this chunk.
    pub chunk_index: u64,
    /// Declared size of the whole file in bytes.
    pub total_file_size: u64,
    /// The fixed chunk size the file was split with.
    pub chunk_size: u64,
    /// Number of chunks the file was split into.
    pub total_chunk_count: u64,
    /// Byte offset of this chunk inside the file.
    pub byte_offset: u64,
}

/// The body fields of the finish call that reassembles the chunks.
pub struct FinishRequest {
    /// Session identifier the chunks were uploaded under.
    pub session_id: String,
    /// The file's display name.
    pub original_name: String,
    /// The file's MIME type.
    pub mime_type: String,
    /// Album to file the upload under; `None` when no album was chosen.
    pub album_id: Option<String>,
}

/// What to do with a chunk's file after its request was attempted.
#[derive(Debug, PartialEq, Eq, Structural)]
pub enum ChunkFileAction {
    /// The chunk arrived: delete its file at once.
    Delete,
    /// The chunk was skipped: leave its file behind.
    Keep,
}

/// One file's chunked upload in flight.
pub struct ChunkSession {
    /// Fresh identifier correlating the chunk requests and the finish call.
    pub session_id: String,
    /// Size of the whole file in bytes.
    pub total_size: u64,
    /// The fixed chunk size the file was split with.
    pub chunk_size: u64,
    /// Number of chunks, as the splitter materialized them.
    pub total_chunks: u64,
    /// Index of the next chunk to attempt.
    pub next_index: u64,
    /// Bytes acknowledged so far, for progress reporting; capped at the
    /// file's size.
    pub acked_bytes: u64,
}

impl ChunkSession {
    /// The session's internal invariant.
    pub open spec fn wf(self) -> bool {
        &&& self.chunk_size > 0
        &&& self.total_chunks == spec_chunk_count(self.total_size as nat, self.chunk_size as nat)
        &&& self.next_index <= self.total_chunks
        &&& self.acked_bytes <= self.total_size
        &&& self.session_id@.len() == 36
    }

    /// Opens a session for a file of `total_size` bytes split at
    /// `chunk_size`: a fresh identifier, the chunk count recomputed
    /// from the sizes, no chunk attempted yet, nothing acknowledged.
    pub fn begin(total_size: u64, chunk_size: u64) -> (session: ChunkSession)
        requires
            chunk_size > 0,
        ensures
            session.wf(),
            session.total_size == total_size,
            session.chunk_size == chunk_size,
            session.total_chunks == spec_chunk_count(total_size as nat, chunk_size as nat),
            session.next_index == 0,
            session.acked_bytes == 0,
    {
        let session_id = fresh_session_id();
        let total_chunks = chunk_count(total_size, chunk_size);
        ChunkSession {
            session_id,
            total_size,
            chunk_size,
            total_chunks,
            next_index: 0,
            acked_bytes: 0,
        }
    }

    /// Every chunk index was attempted; the finish call is next.
    pub fn is_complete(&self) -> (complete: bool)
        ensures
            complete == (self.next_index == self.total_chunks),
    {
        self.next_index == self.total_chunks
    }

    /// The fields of the request for the chunk now due: the session's
    /// declared sizes, the next index, and that chunk's byte offset
    /// `index * chunk_size`.
    pub fn chunk_request(&self) -> (request: ChunkRequest)
        requires
            self.wf(),
            self.next_index < self.total_chunks,
        ensures
            request.session_id@ == self.session_id@,
            request.chunk_index == self.next_index,
            request.total_file_size == self.total_size,
            request.chunk_size == self.chunk_size,
            request.total_chunk_count == self.total_chunks,
            request.byte_offset == self.next_index * self.chunk_size,
    {
        proof {
            lemma_chunk_offset_in_payload(
                self.next_index as nat,
                self.total_size as nat,
                self.chunk_size as nat,
            );
        }
        ChunkRequest {
            session_id: self.session_id.clone(),
            chunk_index: self.next_index,
            total_file_size: self.total_size,
            chunk_size: self.chunk_size,
            total_chunk_count: self.total_chunks,
            byte_offset: self.next_index * self.chunk_size,
        }
    }

    /// Notes the outcome of the chunk now due and moves to the next
    /// index either way — a failed chunk is skipped, not retried. A
    /// delivered chunk advances the acknowledged bytes by one chunk
    /// size, capped at the file's size, and its file is to be deleted;
    /// a skipped chunk changes no progress and its file is kept.
    pub fn record_chunk_outcome(&mut self, delivered: bool) -> (action: ChunkFileAction)
        requires
            old(self).wf(),
            old(self).next_index < old(self).total_chunks,
        ensures
            final(self).wf(),
            final(self).session_id@ == old(self).session_id@,
            final(self).total_size == old(self).total_size,
            final(self).chunk_size == old(self).chunk_size,
            final(self).total_chunks == old(self).total_chunks,
            final(self).next_index == old(self).next_index + 1,
            final(self).acked_bytes == if delivered {
                if old(self).acked_bytes + old(self).chunk_size >= old(self).total_size {
                    old(self).total_size as int
                } else {
                    old(self).acked_bytes + old(self).chunk_size
                }
            } else {
                old(self).acked_bytes as int
            },
            action == if delivered {
                ChunkFileAction::Delete
            } else {
                ChunkFileAction::Keep
            },
    {
        self.next_index = self.next_index + 1;
        if delivered {
            if self.chunk_size >= self.total_size - self.acked_bytes {
                self.acked_bytes = self.total_size;
            } else {
                self.acked_bytes = self.acked_bytes + self.chunk_size;
            }
            ChunkFileAction::Delete
        } else {
            ChunkFileAction::Keep
        }
    }

    /// The body fields of the finish call: the session's identifier,
    /// the file's name and MIME type, and the album only when one was
    /// chosen (an empty album identifier means none).
    pub fn finish_request(&self, name: &str, mime_type: &str, album_id: &str) -> (request:
        FinishRequest)
        ensures
            request.session_id@ == self.session_id@,
            request.original_name@ == name@,
            request.mime_type@ == mime_type@,
            match request.album_id {
                Some(a) => album_id@.len() > 0 && a@ == album_id@,
                None => album_id@.len() == 0,
            },
    {
        let album = if album_id.is_empty() {
            None
        } else {
            Some(album_id.to_owned())
        };
        FinishRequest {
            session_id: self.session_id.clone(),
            original_name: name.to_owned(),
            mime_type: mime_type.to_owned(),
            album_id: album,
        }
    }
}

} // verus!
