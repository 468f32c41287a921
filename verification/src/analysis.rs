//! The bookkeeping of an analysis run: which batch comes next, when the run
//! ends, which rows a batch writes and what is reported after it.
//!
//! The run walks the catalogued files that have no analysis yet, in rising
//! order of id, one batch at a time. Reading the catalogue, analysing the
//! audio and writing the rows are the caller's part.

use tokio_util::sync::CancellationToken;
use vstd::prelude::*;

verus! {

/// A progress callback that does nothing.
pub fn empty_progress_callback(_processed: usize, _total: usize) {
}

/// How the analysis of one file of a batch ended.
#[derive(Debug, Clone, Copy, PartialEq, Eq, Structural)]
pub struct FileOutcome {
    pub file_id: i32,
    /// Whether the file could be decoded and analysed.
    pub analysed: bool,
}

/// What to do with a batch that was just fetched.
#[derive(Debug, Clone, Copy, PartialEq, Eq, Structural)]
pub enum BatchDecision {
    /// Analyse the files and write their rows.
    Analyse,
    /// End the run and return `total`.
    Finish { total: usize },
}

/// The state of a run between two batches.
#[derive(Debug, Clone, Copy, PartialEq, Eq, Structural)]
pub struct AnalysisRun {
    /// The number of files in the catalogue when the run began.
    pub total: usize,
    /// The number of files that have an analysis by now.
    pub processed: usize,
    /// The id of the last file of the last batch; the next batch starts
    /// behind it.
    pub cursor: Option<i32>,
}

/// The ids of the files that were analysed, in the order of the batch.
pub open spec fn analysed_ids(outcomes: Seq<FileOutcome>) -> Seq<i32>
    decreases outcomes.len(),
{
    if outcomes.len() == 0 {
        Seq::empty()
    } else if outcomes.last().analysed {
        analysed_ids(outcomes.drop_last()).push(outcomes.last().file_id)
    } else {
        analysed_ids(outcomes.drop_last())
    }
}

/// No more files were analysed than the batch holds.
pub proof fn analysed_ids_is_short(outcomes: Seq<FileOutcome>)
    ensures
        analysed_ids(outcomes).len() <= outcomes.len(),
    decreases outcomes.len(),
{
    if outcomes.len() > 0 {
        analysed_ids_is_short(outcomes.drop_last());
    }
}

/// Through every batch the total stays what it was at the start, the
/// count of analysed files never falls and grows by no more than the batch
/// holds.
pub proof fn batch_keeps_total(run: AnalysisRun, outcomes: Seq<FileOutcome>)
    requires
        run.processed + outcomes.len() <= usize::MAX,
    ensures
        run.after_batch(outcomes).total == run.total,
        run.processed <= run.after_batch(outcomes).processed <= run.processed + outcomes.len(),
        run.decision(0, false) == (BatchDecision::Finish { total: run.total }),
{
    analysed_ids_is_short(outcomes);
}

impl AnalysisRun {
    /// The decision on a batch of `batch_len` files: an empty batch ends
    /// the run, and so does cancellation; else the batch is analysed.
    pub open spec fn decision(self, batch_len: usize, cancelled: bool) -> BatchDecision {
        if batch_len == 0 || cancelled {
            BatchDecision::Finish { total: self.total }
        } else {
            BatchDecision::Analyse
        }
    }

    /// The run after a batch with these outcomes: each analysed file
    /// counts, the cursor stands on the last file of the batch, and the
    /// total is what it was.
    pub open spec fn after_batch(self, outcomes: Seq<FileOutcome>) -> AnalysisRun {
        AnalysisRun {
            total: self.total,
            processed: (self.processed + analysed_ids(outcomes).len()) as usize,
            cursor: if outcomes.len() > 0 {
                Some(outcomes.last().file_id)
            } else {
                self.cursor
            },
        }
    }

    /// A run over a catalogue of `total_tasks` files of which
    /// `already_analysed` have an analysis.
    pub fn begin(total_tasks: usize, already_analysed: usize) -> (run: AnalysisRun)
        ensures
            run == (AnalysisRun { total: total_tasks, processed: already_analysed, cursor: None }),
    {
        AnalysisRun { total: total_tasks, processed: already_analysed, cursor: None }
    }

    /// Decides on a batch of `batch_len` files, given whether cancellation
    /// was requested.
    pub fn decide(&self, batch_len: usize, cancelled: bool) -> (decision: BatchDecision)
        ensures
            decision == self.decision(batch_len, cancelled),
    {
        if batch_len == 0 || cancelled {
            BatchDecision::Finish { total: self.total }
        } else {
            BatchDecision::Analyse
        }
    }

    /// Decides on a batch of `batch_len` files, asking the cancellation
    /// handle if there is one. An empty batch always ends the run; without
    /// a handle a batch that holds files is always analysed; with one, the
    /// decision is that for either answer of the handle.
    pub fn check_batch(&self, batch_len: usize, cancel_token: &Option<CancellationToken>) -> (decision:
        BatchDecision)
        ensures
            decision == self.decision(batch_len, false) || decision == self.decision(
                batch_len,
                true,
            ),
            cancel_token is None ==> decision == self.decision(batch_len, false),
    {
        if batch_len == 0 {
            return self.decide(batch_len, false);
        }
        let cancelled = match cancel_token {
            Some(token) => token.is_cancelled(),
            None => false,
        };
        self.decide(batch_len, cancelled)
    }

    /// Settles a batch: returns the ids of the files to write a row for,
    /// in the order of the batch, and moves the run on. A file that could
    /// not be analysed gets no row and does not count.
    pub fn settle(&mut self, outcomes: &Vec<FileOutcome>) -> (rows: Vec<i32>)
        requires
            old(self).processed + outcomes@.len() <= usize::MAX,
        ensures
            rows@ == analysed_ids(outcomes@),
            *final(self) == old(self).after_batch(outcomes@),
    {
        let mut rows: Vec<i32> = Vec::new();
        let mut i: usize = 0;
        while i < outcomes.len()
            invariant
                i <= outcomes@.len(),
                rows@ == analysed_ids(outcomes@.take(i as int)),
                rows@.len() <= i,
            decreases outcomes@.len() - i,
        {
            proof {
                assert(outcomes@.take(i + 1).drop_last() == outcomes@.take(i as int));
            }
            if outcomes[i].analysed {
                rows.push(outcomes[i].file_id);
            }
            i += 1;
        }
        proof {
            assert(outcomes@.take(outcomes@.len() as int) == outcomes@);
        }
        self.processed = self.processed + rows.len();
        if outcomes.len() > 0 {
            self.cursor = Some(outcomes[outcomes.len() - 1].file_id);
        }
        rows
    }

    /// What the progress callback is told: the files analysed so far and
    /// the size of the catalogue at the start.
    pub fn progress(&self) -> (report: (usize, usize))
        ensures
            report == (self.processed, self.total),
    {
        (self.processed, self.total)
    }
}

} // verus!
