//! Routing candidates and tallying the run.
//!
//! For each candidate, in input order: skip it when the ledger already
//! records its path (unless force-mode is on), refuse it when it is too
//! large, and otherwise send it down the simple or the chunked path.
//! The tally collects the direct URLs of the successes and the skip
//! count; the failure count is whatever remains of the total.

use crate::CHUNK_SIZE;
use crate::MAX_UPLOAD_SIZE;
use crate::ledger::has_record;
use crate::ledger::spec_contains;
use crate::response::UploadOutcome;
use vstd::prelude::*;

verus! {

/// Where one candidate is sent.
#[derive(Debug, PartialEq, Eq, Structural)]
pub enum Route {
    /// The ledger already records the path and force-mode is off: no
    /// request is issued, the file counts as skipped.
    Skip,
    /// The file is at or above the hard size ceiling: no request is
    /// issued, the file counts as failed.
    RejectOversize,
    /// Below the chunk threshold: one single multipart request.
    Simple,
    /// At or above the chunk threshold: split, then the chunk protocol.
    Chunked,
}

/// The route a candidate takes, decided from the force flag, the
/// ledger's current text, and the candidate's path and size — in that
/// order: the ledger is consulted first, then the size ceiling, then
/// the chunk threshold.
pub open spec fn spec_route(force: bool, ledger: Seq<char>, path: Seq<char>, size: u64) -> Route {
    if !force && spec_contains(ledger, path) {
        Route::Skip
    } else if size >= MAX_UPLOAD_SIZE {
        Route::RejectOversize
    } else if size < CHUNK_SIZE {
        Route::Simple
    } else {
        Route::Chunked
    }
}

/// Sends a candidate down its route, given its absolute path and its
/// size. The ledger content is re-read by the caller before every
/// candidate, so entries appended earlier in the same run are seen
/// here.
pub fn route_candidate(force: bool, ledger_content: &str, path: &str, size: u64) -> (route: Route)
    ensures
        route == spec_route(force, ledger_content@, path@, size),
{
    if !force && has_record(ledger_content, path) {
        Route::Skip
    } else if size >= MAX_UPLOAD_SIZE {
        Route::RejectOversize
    } else if size < CHUNK_SIZE {
        Route::Simple
    } else {
        Route::Chunked
    }
}

/// A route that issues requests: the simple or the chunked path.
pub open spec fn spec_is_upload_route(route: Route) -> bool {
    route == Route::Simple || route == Route::Chunked
}

/// The running totals of one run over a list of candidates, each seen
/// as its path and size.
pub open spec fn spec_skip_count(
    force: bool,
    ledger: Seq<char>,
    candidates: Seq<(Seq<char>, u64)>,
) -> nat
    decreases candidates.len(),
{
    if candidates.len() == 0 {
        0
    } else {
        spec_skip_count(force, ledger, candidates.drop_last()) + if spec_route(
            force,
            ledger,
            candidates.last().0,
            candidates.last().1,
        ) == Route::Skip {
            1nat
        } else {
            0nat
        }
    }
}

/// How many of the candidates are routed to an uploader at all, against
/// one fixed ledger text.
pub open spec fn spec_upload_count(
    force: bool,
    ledger: Seq<char>,
    candidates: Seq<(Seq<char>, u64)>,
) -> nat
    decreases candidates.len(),
{
    if candidates.len() == 0 {
        0
    } else {
        spec_upload_count(force, ledger, candidates.drop_last()) + if spec_is_upload_route(
            spec_route(force, ledger, candidates.last().0, candidates.last().1),
        ) {
            1nat
        } else {
            0nat
        }
    }
}

/// An oversized file is never routed to an uploader: no request is
/// issued for it, so no URL for it can ever enter the success list.
pub proof fn lemma_oversize_never_uploaded(
    force: bool,
    ledger: Seq<char>,
    path: Seq<char>,
    size: u64,
)
    requires
        size >= MAX_UPLOAD_SIZE,
    ensures
        !spec_is_upload_route(spec_route(force, ledger, path, size)),
{
}

/// With force-mode off, a path the ledger records is skipped: its route
/// issues no request.
pub proof fn lemma_recorded_path_skipped(ledger: Seq<char>, path: Seq<char>, size: u64)
    requires
        spec_contains(ledger, path),
    ensures
        spec_route(false, ledger, path, size) == Route::Skip,
{
}

/// With force-mode on, the ledger's content plays no part: any two
/// ledger texts route a candidate the same way.
pub proof fn lemma_force_ignores_ledger(
    ledger1: Seq<char>,
    ledger2: Seq<char>,
    path: Seq<char>,
    size: u64,
)
    ensures
        spec_route(true, ledger1, path, size) == spec_route(true, ledger2, path, size),
{
}

/// Re-running over a ledger that already records every candidate, with
/// force-mode off, skips them all: the skip count is the whole list and
/// no upload is attempted — so nothing can complete, and no duplicate
/// ledger entry is appended for a skipped file.
pub proof fn lemma_rerun_reproduces_skips(
    force: bool,
    ledger: Seq<char>,
    candidates: Seq<(Seq<char>, u64)>,
)
    requires
        !force,
        forall|i: int|
            0 <= i < candidates.len() ==> spec_contains(ledger, (#[trigger] candidates[i]).0),
    ensures
        spec_skip_count(force, ledger, candidates) == candidates.len(),
        spec_upload_count(force, ledger, candidates) == 0,
    decreases candidates.len(),
{
    if candidates.len() > 0 {
        lemma_rerun_reproduces_skips(force, ledger, candidates.drop_last());
        lemma_recorded_path_skipped(ledger, candidates.last().0, candidates.last().1);
    }
}

/// The running totals of one run: the successes' URLs in order, the
/// number of skipped files, and the number of candidates processed.
pub struct RunTally {
    /// Direct-access URLs of the files that completed, in input order.
    pub urls: Vec<String>,
    /// Files skipped because the ledger already recorded them.
    pub skipped: u64,
    /// Candidates processed so far, whatever their outcome.
    pub processed: u64,
}

impl RunTally {
    /// The tally's internal invariant: every processed candidate is a
    /// success, a skip, or a failure.
    pub open spec fn wf(self) -> bool {
        self.urls@.len() + self.skipped <= self.processed
    }

    /// An empty tally: nothing processed yet.
    pub fn new() -> (tally: RunTally)
        ensures
            tally.wf(),
            tally.urls@.len() == 0,
            tally.skipped == 0,
            tally.processed == 0,
    {
        RunTally { urls: Vec::new(), skipped: 0, processed: 0 }
    }

    /// Notes a completed file: its URL joins the success list.
    pub fn record_success(&mut self, url: String)
        requires
            old(self).wf(),
            old(self).processed < u64::MAX,
        ensures
            final(self).wf(),
            final(self).urls@ == old(self).urls@.push(url),
            final(self).skipped == old(self).skipped,
            final(self).processed == old(self).processed + 1,
    {
        self.urls.push(url);
        self.processed = self.processed + 1;
    }

    /// Notes a skipped file.
    pub fn record_skip(&mut self)
        requires
            old(self).wf(),
            old(self).processed < u64::MAX,
        ensures
            final(self).wf(),
            final(self).urls@ == old(self).urls@,
            final(self).skipped == old(self).skipped + 1,
            final(self).processed == old(self).processed + 1,
    {
        self.skipped = self.skipped + 1;
        self.processed = self.processed + 1;
    }

    /// Notes a failed file: it joins neither list and shows only in
    /// the failure count.
    pub fn record_failure(&mut self)
        requires
            old(self).wf(),
            old(self).processed < u64::MAX,
        ensures
            final(self).wf(),
            final(self).urls@ == old(self).urls@,
            final(self).skipped == old(self).skipped,
            final(self).processed == old(self).processed + 1,
    {
        self.processed = self.processed + 1;
    }

    /// How many files completed.
    pub fn success_count(&self) -> (count: u64)
        requires
            self.wf(),
        ensures
            count == self.urls@.len(),
    {
        self.urls.len() as u64
    }

    /// How many files failed: whatever was processed but neither
    /// completed nor was skipped.
    pub fn failed_count(&self) -> (count: u64)
        requires
            self.wf(),
        ensures
            count == self.processed - self.skipped - self.urls@.len(),
    {
        self.processed - self.skipped - self.urls.len() as u64
    }
}

/// Books one attempted upload into the tally and hands back the ledger
/// lines to append — exactly when the upload completed. A failed file
/// joins neither the success list nor the skip count.
pub fn record_outcome(tally: &mut RunTally, outcome: UploadOutcome) -> (appended: Option<String>)
    requires
        old(tally).wf(),
        old(tally).processed < u64::MAX,
    ensures
        final(tally).wf(),
        final(tally).processed == old(tally).processed + 1,
        final(tally).skipped == old(tally).skipped,
        match outcome {
            UploadOutcome::Completed { url, entry } => final(tally).urls@ == old(
                tally,
            ).urls@.push(url) && appended == Some(entry),
            UploadOutcome::Failed { kind: _ } => final(tally).urls@ == old(tally).urls@ && appended
                is None,
        },
{
    match outcome {
        UploadOutcome::Completed { url, entry } => {
            tally.record_success(url);
            Some(entry)
        },
        UploadOutcome::Failed { kind: _ } => {
            tally.record_failure();
            None
        },
    }
}

} // verus!
