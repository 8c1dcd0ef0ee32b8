//! Bounded-concurrency batch accounting: which jobs have been handed
//! out, which have completed, and the aggregate tally. The scheduling
//! loop that waits on the external tool lives outside the library; it
//! drives this state machine, which guarantees the accounting.

use vstd::prelude::*;
use crate::error::ToolError;

verus! {

/// The reported outcome of one job, immutable once produced.
#[derive(Debug, Clone)]
pub enum JobOutcome {
    Success,
    Failure(ToolError),
}

impl JobOutcome {
    /// True for a successful outcome.
    pub fn is_success(&self) -> (r: bool)
        ensures
            r == (self is Success),
    {
        match self {
            JobOutcome::Success => true,
            JobOutcome::Failure(_) => false,
        }
    }
}

/// How many entries of `s` are set.
pub open spec fn count_true(s: Seq<bool>) -> int
    decreases s.len(),
{
    if s.len() == 0 {
        0
    } else {
        count_true(s.drop_last()) + if s.last() {
            1int
        } else {
            0int
        }
    }
}

pub proof fn lemma_count_true_bounds(s: Seq<bool>)
    ensures
        0 <= count_true(s) <= s.len(),
    decreases s.len(),
{
    if s.len() > 0 {
        lemma_count_true_bounds(s.drop_last());
    }
}

/// Setting one unset entry raises the count by one.
pub proof fn lemma_count_true_set(s: Seq<bool>, i: int)
    requires
        0 <= i < s.len(),
        !s[i],
    ensures
        count_true(s.update(i, true)) == count_true(s) + 1,
    decreases s.len(),
{
    let t = s.update(i, true);
    if i == s.len() - 1 {
        assert(t.drop_last() =~= s.drop_last());
    } else {
        assert(t.drop_last() =~= s.drop_last().update(i, true));
        lemma_count_true_set(s.drop_last(), i);
    }
}

/// With every set entry below `bound` and one entry below `bound`
/// unset, the count stays below `bound`.
pub proof fn lemma_count_true_except(s: Seq<bool>, bound: int, i: int)
    requires
        0 <= i < bound <= s.len(),
        !s[i],
        forall|j: int| bound <= j < s.len() ==> !s[j],
    ensures
        count_true(s) < bound,
    decreases s.len(),
{
    if bound == s.len() {
        if i == s.len() - 1 {
            lemma_count_true_bounds(s.drop_last());
        } else {
            lemma_count_true_except(s.drop_last(), bound - 1, i);
        }
    } else {
        assert(!s.last());
        assert(forall|j: int| bound <= j < s.len() - 1 ==> !s.drop_last()[j]);
        lemma_count_true_except(s.drop_last(), bound, i);
    }
}

/// A full count means every entry is set.
pub proof fn lemma_count_true_full(s: Seq<bool>)
    requires
        count_true(s) == s.len(),
    ensures
        forall|i: int| 0 <= i < s.len() ==> s[i],
    decreases s.len(),
{
    if s.len() > 0 {
        lemma_count_true_bounds(s.drop_last());
        assert(s.last());
        lemma_count_true_full(s.drop_last());
        assert(forall|i: int| 0 <= i < s.len() - 1 ==> s[i] == s.drop_last()[i]);
    }
}

/// The accounting of one batch invocation.
///
/// Jobs are identified by their index in the batch's ordered job list.
/// They are handed out in order, so the jobs in flight at any moment
/// are the started ones not yet completed, and the well-formedness
/// invariant keeps their number within the concurrency bound.
#[derive(Debug, Clone)]
pub struct BatchRun {
    /// The concurrency bound J, at least one.
    pub bound: usize,
    /// How many jobs have been handed out; jobs start in list order.
    pub started: usize,
    /// One entry per job of the batch, set when its outcome arrived.
    pub completed: Vec<bool>,
    /// Jobs that completed successfully.
    pub succeeded: usize,
    /// Jobs that completed with a failure.
    pub failed: usize,
}

impl BatchRun {
    /// The number of jobs in the batch.
    pub open spec fn spec_total(self) -> int {
        self.completed@.len() as int
    }

    /// The number of jobs handed out and not yet completed.
    pub open spec fn spec_in_flight(self) -> int {
        self.started - count_true(self.completed@)
    }

    /// The accounting invariant: every operation preserves it, so at
    /// every reachable state the counters agree with the completion
    /// marks, no unstarted job has completed, and at most `bound` jobs
    /// are in flight.
    pub open spec fn wf(self) -> bool {
        &&& self.bound >= 1
        &&& self.started <= self.spec_total()
        &&& self.succeeded + self.failed == count_true(self.completed@)
        &&& count_true(self.completed@) <= self.started
        &&& forall|i: int| self.started <= i < self.spec_total() ==> !self.completed@[i]
        &&& self.spec_in_flight() <= self.bound
    }

    /// Open the accounting for a batch of `total` jobs under the
    /// concurrency bound `bound`.
    pub fn new(total: usize, bound: usize) -> (r: BatchRun)
        requires
            bound >= 1,
        ensures
            r.wf(),
            r.spec_total() == total,
            r.bound == bound,
            r.started == 0,
            r.succeeded == 0,
            r.failed == 0,
    {
        let completed: Vec<bool> = vec![false; total];
        let r = BatchRun { bound, started: 0, completed, succeeded: 0, failed: 0 };
        proof {
            lemma_count_all_false(r.completed@);
        }
        r
    }

    /// The number of jobs in the batch.
    pub fn total(&self) -> (r: usize)
        ensures
            r == self.spec_total(),
    {
        self.completed.len()
    }

    /// The number of jobs currently in flight.
    pub fn in_flight(&self) -> (r: usize)
        requires
            self.wf(),
        ensures
            r == self.spec_in_flight(),
    {
        proof {
            lemma_count_true_bounds(self.completed@);
        }
        self.started - self.succeeded - self.failed
    }

    /// True while another job may be handed out at once: some job is
    /// still queued and the concurrency bound leaves room. The
    /// work-conserving policy starts jobs exactly while this holds.
    pub fn can_start(&self) -> (r: bool)
        requires
            self.wf(),
        ensures
            r == (self.started < self.spec_total() && self.spec_in_flight() < self.bound),
    {
        self.started < self.total() && self.in_flight() < self.bound
    }

    /// Hand out the next queued job; its index is returned. Only the
    /// started count changes, and the bound still holds afterwards.
    pub fn start(&mut self) -> (i: usize)
        requires
            old(self).wf(),
            old(self).started < old(self).spec_total(),
            old(self).spec_in_flight() < old(self).bound,
        ensures
            final(self).wf(),
            i == old(self).started,
            final(self).started == old(self).started + 1,
            final(self).bound == old(self).bound,
            final(self).completed == old(self).completed,
            final(self).succeeded == old(self).succeeded,
            final(self).failed == old(self).failed,
            final(self).spec_in_flight() == old(self).spec_in_flight() + 1,
    {
        let n = self.completed.len();
        let i = self.started;
        assert(i < n);
        self.started = self.started + 1;
        i
    }

    /// Record the outcome of a started job that had none yet. Exactly
    /// its completion mark and the matching counter change; the job
    /// leaves the in-flight set, so completion never blocks a sibling.
    pub fn complete(&mut self, i: usize, outcome: &JobOutcome)
        requires
            old(self).wf(),
            i < old(self).started,
            !old(self).completed@[i as int],
        ensures
            final(self).wf(),
            final(self).completed@ == old(self).completed@.update(i as int, true),
            final(self).started == old(self).started,
            final(self).bound == old(self).bound,
            final(self).succeeded == old(self).succeeded + if outcome is Success {
                1int
            } else {
                0int
            },
            final(self).failed == old(self).failed + if outcome is Success {
                0int
            } else {
                1int
            },
            final(self).spec_in_flight() == old(self).spec_in_flight() - 1,
    {
        let n = self.completed.len();
        proof {
            lemma_count_true_bounds(self.completed@);
            lemma_count_true_set(self.completed@, i as int);
            lemma_count_true_except(self.completed@, self.started as int, i as int);
        }
        self.completed.set(i, true);
        if outcome.is_success() {
            self.succeeded = self.succeeded + 1;
        } else {
            self.failed = self.failed + 1;
        }
    }

    /// True when every job of the batch has a recorded outcome.
    pub fn is_done(&self) -> (r: bool)
        requires
            self.wf(),
        ensures
            r == (self.succeeded + self.failed == self.spec_total()),
    {
        proof {
            lemma_count_true_bounds(self.completed@);
        }
        self.succeeded + self.failed == self.total()
    }
}

proof fn lemma_count_all_false(s: Seq<bool>)
    requires
        forall|i: int| 0 <= i < s.len() ==> !s[i],
    ensures
        count_true(s) == 0,
    decreases s.len(),
{
    if s.len() > 0 {
        lemma_count_all_false(s.drop_last());
    }
}

/// When a batch is done, its counters sum to the number of jobs, no
/// job is left in flight, and every job was completed exactly once:
/// none dropped, none double-counted.
pub proof fn lemma_batch_accounting(b: BatchRun)
    requires
        b.wf(),
        b.succeeded + b.failed == b.spec_total(),
    ensures
        b.spec_in_flight() == 0,
        b.started == b.spec_total(),
        forall|i: int| 0 <= i < b.spec_total() ==> b.completed@[i],
{
    lemma_count_true_bounds(b.completed@);
    lemma_count_true_full(b.completed@);
}

/// Drive a whole batch to completion from a list of job results, one
/// entry per job, starting work-conservingly and recording each
/// outcome as it arrives. The final accounting tallies exactly the
/// successes and failures of the list.
pub fn run_batch(job_results: &Vec<bool>, bound: usize) -> (r: BatchRun)
    requires
        bound >= 1,
    ensures
        r.wf(),
        r.spec_total() == job_results@.len(),
        r.succeeded + r.failed == r.spec_total(),
        r.succeeded == count_true(job_results@),
{
    let total = job_results.len();
    let mut b = BatchRun::new(total, bound);
    let mut done: usize = 0;
    while done < total
        invariant
            b.wf(),
            b.spec_total() == total,
            total == job_results@.len(),
            b.bound == bound,
            done <= total,
            b.started == done,
            b.succeeded + b.failed == done,
            b.succeeded == count_true(job_results@.take(done as int)),
            forall|i: int| 0 <= i < done ==> b.completed@[i],
        decreases total - done,
    {
        proof {
            lemma_count_true_bounds(b.completed@);
        }
        let i = b.start();
        let outcome = if job_results[done] {
            JobOutcome::Success
        } else {
            JobOutcome::Failure(ToolError::ToolFailed(String::new()))
        };
        proof {
            assert(!b.completed@[i as int]);
        }
        b.complete(i, &outcome);
        proof {
            assert(job_results@.take(done + 1).drop_last() =~= job_results@.take(done as int));
            assert(job_results@.take(done + 1).last() == job_results@[done as int]);
        }
        done = done + 1;
    }
    proof {
        assert(job_results@.take(total as int) =~= job_results@);
    }
    b
}

} // verus!
