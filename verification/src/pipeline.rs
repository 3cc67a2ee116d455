//! The hashing pipeline's decision logic: which event is emitted at each
//! step of one invocation, and what the final digest mapping holds.
//!
//! One invocation moves through the states
//! `NotStarted -> Enumerating -> (Failed | Dispatching) -> Completed`.
//! A traversal fault ends the run with a single collection-failure event.
//! Otherwise a `Started` event with the file count opens the sequence, one
//! file-level event follows per file, and a terminal `Result` event carries
//! one mapping entry per file.  A file that fails to hash is non-fatal: it is
//! reported with a file-level error event and recorded under the empty
//! sentinel digest, and the remaining files are still processed.
//!
//! [`PipelineRun`] is the dispatching state; the shell that runs workers
//! concurrently drives one shared `PipelineRun` and sends each returned event
//! in the order the calls happen.  [`dispatch_events`] is the same machine
//! driven over the files one at a time in enumeration order: the reference
//! shape of the event sequence.

use vstd::prelude::*;
use crate::digest_map::{DigestMap, has_path, paths_distinct};
use crate::events::{CurrentFileUpdate, ProgressHashingError, WorkStatus};

verus! {

/// How many of the first `i` outcomes are successes (a hashed digest rather
/// than a per-file fault).
pub open spec fn successes_before(outcomes: Seq<Option<String>>, i: int) -> nat
    decreases i,
{
    if i <= 0 || i > outcomes.len() {
        0
    } else {
        successes_before(outcomes, i - 1) + if outcomes[i - 1] is Some {
            1nat
        } else {
            0nat
        }
    }
}

/// How many of the outcomes are successes.
pub open spec fn success_count(outcomes: Seq<Option<String>>) -> nat {
    successes_before(outcomes, outcomes.len() as int)
}

/// The digest recorded in the final mapping for one file: the hashed digest
/// on success, the empty sentinel string on a per-file fault.
pub open spec fn digest_or_sentinel(outcome: Option<String>) -> Seq<char> {
    match outcome {
        Some(d) => d@,
        None => Seq::<char>::empty(),
    }
}

/// The file-level event emitted for one file: a progress update carrying the
/// pre-increment counter value on success, a file-hashing error otherwise.
pub open spec fn file_event(path: String, outcome: Option<String>, prior_successes: usize) -> WorkStatus {
    match outcome {
        Some(d) => WorkStatus::Progress(
            (CurrentFileUpdate { current_file: path, total_hashed_files: prior_successes }),
        ),
        None => WorkStatus::Error(ProgressHashingError::ErrHashingFile),
    }
}

/// The dispatching state of one invocation: how many files the run started
/// with, how many have been processed and how many of those succeeded, and
/// the digest mapping accumulated so far.
pub struct PipelineRun {
    total: usize,
    processed: usize,
    succeeded: usize,
    digests: DigestMap,
}

impl PipelineRun {
    /// The number of files the run started with.
    pub closed spec fn total(&self) -> usize {
        self.total
    }

    /// How many files have been processed, successfully or not.
    pub closed spec fn processed(&self) -> usize {
        self.processed
    }

    /// How many processed files were hashed successfully: the value of the
    /// shared progress counter.
    pub closed spec fn succeeded(&self) -> usize {
        self.succeeded
    }

    /// The digest mapping accumulated so far, in processing order.
    pub closed spec fn digests_view(&self) -> Seq<(Seq<char>, Seq<char>)> {
        self.digests@
    }

    /// One mapping entry per processed file, counts consistent, paths
    /// distinct.
    pub closed spec fn wf(&self) -> bool {
        &&& self.digests.wf()
        &&& self.digests@.len() == self.processed
        &&& self.succeeded <= self.processed <= self.total
    }

    /// Opens a run over `total` enumerated files: the `Started` event, first
    /// in the sequence, and the fresh dispatching state behind it.
    pub fn start(total: usize) -> (r: (WorkStatus, PipelineRun))
        ensures
            r.0 == WorkStatus::Started(total),
            r.1.wf(),
            r.1.total() == total,
            r.1.processed() == 0,
            r.1.succeeded() == 0,
            r.1.digests_view() == Seq::<(Seq<char>, Seq<char>)>::empty(),
    {
        let run = PipelineRun { total, processed: 0, succeeded: 0, digests: DigestMap::new() };
        (WorkStatus::Started(total), run)
    }

    /// Records one successfully hashed file: the digest goes into the
    /// mapping, the progress counter is incremented, and the returned
    /// `Progress` event carries the counter's pre-increment value.
    pub fn record_success(&mut self, path: String, digest: String) -> (ev: WorkStatus)
        requires
            old(self).wf(),
            old(self).processed() < old(self).total(),
            !has_path(old(self).digests_view(), path@),
        ensures
            final(self).wf(),
            final(self).total() == old(self).total(),
            final(self).processed() == old(self).processed() + 1,
            final(self).succeeded() == old(self).succeeded() + 1,
            final(self).digests_view() == old(self).digests_view().push((path@, digest@)),
            ev == WorkStatus::Progress(
                (CurrentFileUpdate { current_file: path, total_hashed_files: old(self).succeeded() }),
            ),
    {
        let update = CurrentFileUpdate { current_file: path.clone(), total_hashed_files: self.succeeded };
        self.digests.insert(path, digest);
        self.processed = self.processed + 1;
        self.succeeded = self.succeeded + 1;
        WorkStatus::Progress(update)
    }

    /// Records one file that failed to hash: non-fatal under this pipeline's
    /// policy.  The file is reported with a file-level error event, recorded
    /// under the empty sentinel digest, and the run goes on; the progress
    /// counter is not advanced.
    pub fn record_failure(&mut self, path: String) -> (ev: WorkStatus)
        requires
            old(self).wf(),
            old(self).processed() < old(self).total(),
            !has_path(old(self).digests_view(), path@),
        ensures
            final(self).wf(),
            final(self).total() == old(self).total(),
            final(self).processed() == old(self).processed() + 1,
            final(self).succeeded() == old(self).succeeded(),
            final(self).digests_view() == old(self).digests_view().push((path@, Seq::<char>::empty())),
            ev == WorkStatus::Error(ProgressHashingError::ErrHashingFile),
    {
        let sentinel = String::new();
        self.digests.insert(path, sentinel);
        self.processed = self.processed + 1;
        WorkStatus::Error(ProgressHashingError::ErrHashingFile)
    }

    /// Closes a run whose every file has been processed: the terminal
    /// `Result` event, carrying one mapping entry per started file.
    pub fn finish(self) -> (ev: WorkStatus)
        requires
            self.wf(),
            self.processed() == self.total(),
        ensures
            ev matches WorkStatus::Result(m) && m.wf() && m@ == self.digests_view()
                && m@.len() == self.total(),
    {
        WorkStatus::Result(self.digests)
    }
}

/// The whole event sequence of a run whose enumeration failed: a single
/// collection-failure event, after which the sequence closes.  No `Started`,
/// no `Result`.
pub fn collection_failed_events() -> (events: Vec<WorkStatus>)
    ensures
        events@.len() == 1,
        events@[0] == WorkStatus::Error(ProgressHashingError::ErrCollectingFiles),
{
    let mut events: Vec<WorkStatus> = Vec::new();
    events.push(WorkStatus::Error(ProgressHashingError::ErrCollectingFiles));
    events
}

/// The whole event sequence of a run over `paths`, with `outcomes[i]` the
/// hashing outcome of `paths[i]`, when the files are processed one at a time
/// in enumeration order: exactly one `Started` carrying the file count, then
/// exactly one file-level event per file, then exactly one terminal `Result`
/// whose mapping has one entry per file.
///
/// A concurrent run sends the same events; only the order of the file-level
/// events among themselves, and which counter value accompanies which file,
/// depend on worker scheduling.
pub fn dispatch_events(paths: &Vec<String>, outcomes: &Vec<Option<String>>) -> (events: Vec<WorkStatus>)
    requires
        paths@.len() == outcomes@.len(),
        paths@.len() + 2 <= usize::MAX,
        forall|i: int, j: int| 0 <= i < j < paths@.len() ==> paths@[i]@ != paths@[j]@,
    ensures
        events@.len() == paths@.len() + 2,
        events@[0] == WorkStatus::Started((paths@.len()) as usize),
        forall|i: int| 0 <= i < paths@.len() ==> events@[i + 1] == file_event(
            #[trigger] paths@[i],
            outcomes@[i],
            successes_before(outcomes@, i) as usize,
        ),
        events@.last() matches WorkStatus::Result(m) && m.wf() && m@.len() == paths@.len()
            && (forall|i: int| 0 <= i < paths@.len() ==> #[trigger] m@[i] == (
                paths@[i]@,
                digest_or_sentinel(outcomes@[i]),
            )),
{
    let n = paths.len();
    let (started, mut run) = PipelineRun::start(n);
    let mut events: Vec<WorkStatus> = Vec::new();
    events.push(started);
    let mut k: usize = 0;
    while k < n
        invariant
            n == paths@.len(),
            paths@.len() == outcomes@.len(),
            paths@.len() + 2 <= usize::MAX,
            forall|i: int, j: int| 0 <= i < j < paths@.len() ==> paths@[i]@ != paths@[j]@,
            k <= n,
            run.wf(),
            run.total() == n,
            run.processed() == k,
            run.succeeded() == successes_before(outcomes@, k as int),
            run.digests_view().len() == k,
            forall|i: int| 0 <= i < k ==> #[trigger] run.digests_view()[i] == (
                paths@[i]@,
                digest_or_sentinel(outcomes@[i]),
            ),
            events@.len() == k + 1,
            events@[0] == WorkStatus::Started((paths@.len()) as usize),
            forall|i: int| 0 <= i < k ==> events@[i + 1] == file_event(
                #[trigger] paths@[i],
                outcomes@[i],
                successes_before(outcomes@, i) as usize,
            ),
        decreases n - k,
    {
        proof {
            lemma_successes_before_le(outcomes@, k as int);
            assert forall|i: int| 0 <= i < k implies run.digests_view()[i].0 != paths@[k as int]@ by {
                assert(run.digests_view()[i] == (paths@[i]@, digest_or_sentinel(outcomes@[i])));
            }
        }
        let ev = match &outcomes[k] {
            Some(d) => run.record_success(paths[k].clone(), d.clone()),
            None => run.record_failure(paths[k].clone()),
        };
        events.push(ev);
        k = k + 1;
    }
    let last = run.finish();
    events.push(last);
    events
}

/// The number of successes among the first `i` outcomes is at most `i`.
pub proof fn lemma_successes_before_le(outcomes: Seq<Option<String>>, i: int)
    ensures
        successes_before(outcomes, i) <= if i <= 0 { 0 } else { i },
    decreases i,
{
    if 0 < i <= outcomes.len() {
        lemma_successes_before_le(outcomes, i - 1);
    }
}

/// Between a success and any later point the counter strictly grows: the
/// pre-increment value observed at success `i` is below the count of
/// successes before any later point `j`.
pub proof fn lemma_counters_strictly_increase(outcomes: Seq<Option<String>>, i: int, j: int)
    requires
        0 <= i < j <= outcomes.len(),
        outcomes[i] is Some,
    ensures
        successes_before(outcomes, i) < successes_before(outcomes, j),
    decreases j,
{
    if j > i + 1 {
        lemma_counters_strictly_increase(outcomes, i, j - 1);
    }
}

/// No counter value repeats: two distinct successes observe distinct
/// pre-increment counter values, in increasing order of position.
pub proof fn lemma_counters_distinct(outcomes: Seq<Option<String>>, i: int, j: int)
    requires
        0 <= i < j < outcomes.len(),
        outcomes[i] is Some,
        outcomes[j] is Some,
    ensures
        successes_before(outcomes, i) < successes_before(outcomes, j),
{
    lemma_counters_strictly_increase(outcomes, i, j);
}

/// Every observed counter value lies below the total number of successes.
pub proof fn lemma_counter_below_success_count(outcomes: Seq<Option<String>>, i: int)
    requires
        0 <= i < outcomes.len(),
        outcomes[i] is Some,
    ensures
        successes_before(outcomes, i) < success_count(outcomes),
{
    lemma_counters_strictly_increase(outcomes, i, outcomes.len() as int);
}

/// No counter value is skipped: every value below the number of successes
/// among the first `j` outcomes is observed at some success before `j`.
/// With `j` the whole sequence: the observed values, sorted, are exactly
/// `{0, 1, ..., success_count - 1}`, by this lemma together with
/// [`lemma_counters_distinct`] and [`lemma_counter_below_success_count`].
pub proof fn lemma_counter_attained(outcomes: Seq<Option<String>>, j: int, c: nat)
    requires
        0 <= j <= outcomes.len(),
        c < successes_before(outcomes, j),
    ensures
        exists|i: int|
            0 <= i < j && outcomes[i] is Some && successes_before(outcomes, i) == c,
    decreases j,
{
    if outcomes[j - 1] is Some && successes_before(outcomes, j - 1) == c {
        assert(outcomes[j - 1] is Some && successes_before(outcomes, j - 1) == c);
    } else {
        lemma_counter_attained(outcomes, j - 1, c);
        let i0 = choose|i: int|
            0 <= i < j - 1 && outcomes[i] is Some && successes_before(outcomes, i) == c;
        assert(outcomes[i0] is Some && successes_before(outcomes, i0) == c);
    }
}

} // verus!
