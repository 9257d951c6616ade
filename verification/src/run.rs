//! The run driver's state machine: one benchmark run from its validated
//! configuration to its final summary.
//!
//! The driver loop around this crate asks `next_batch_size` for the next
//! batch, dispatches that many run requests concurrently, waits for all
//! of them (a strict per-batch barrier), and reports each outcome through
//! `record_event`. A failed request aborts the whole run immediately —
//! fail-fast, with no partial summary. When `is_complete` reports that
//! the schedule is exhausted, `summary` yields the final report.

use crate::accumulator::{lemma_sum_push, lemma_sum_order_independent, sum_millis};
use crate::config::BenchConfig;
use crate::planner::{
    batch_width,
    lemma_planned_total_bounds,
    lemma_planned_total_unique,
    lemma_sequential_plan,
    planned_total,
};
use vstd::prelude::*;

verus! {

/// What one dispatched run request reported back: its measured elapsed
/// time, or a failure to spawn or to measure.
#[derive(Clone, Copy, Debug, PartialEq, Eq, Structural)]
pub enum RunEvent {
    /// The request completed; the payload is its wall-clock duration in
    /// milliseconds.
    Completed(u128),
    /// The request could not be executed or timed.
    Failed,
}

/// The driver's decision after one reported event.
#[derive(Clone, Copy, Debug, PartialEq, Eq, Structural)]
pub enum StepOutcome {
    /// Keep going: the event was recorded.
    Continue,
    /// Abort the whole run immediately and produce no summary.
    Abort,
}

/// The final report of a completed benchmark run.
pub struct BenchSummary {
    /// How many runs were asked for.
    pub requested_iterations: u32,
    /// How many runs were executed; at least the requested count, and
    /// larger when batch alignment overran it.
    pub completed_iterations: u64,
    /// The sum of all recorded elapsed times, in milliseconds.
    pub total_millis: u128,
    /// The mean elapsed time: total divided by completed count.
    pub average_millis: u128,
}

/// The state of one benchmark run: its configuration, the count of runs
/// completed so far, and the accumulated elapsed time.
pub struct BenchRun {
    /// The validated configuration, owned for the whole run.
    pub config: BenchConfig,
    /// How many run requests have completed and been recorded.
    pub completed: u64,
    /// The accumulated elapsed time of all recorded results.
    pub total_millis: u128,
    /// The recorded elapsed times, in arrival order.
    pub recorded: Ghost<Seq<u128>>,
}

impl BenchRun {
    /// Well-formedness: the configuration is valid, and the counters are
    /// exactly the length and the sum of the recorded results.
    pub open spec fn wf(self) -> bool {
        &&& self.config.valid()
        &&& self.completed as int == self.recorded@.len()
        &&& self.total_millis as int == sum_millis(self.recorded@)
    }

    /// The batch width this run was configured with.
    pub open spec fn width(self) -> int {
        batch_width(self.config.worker_count)
    }

    /// How many runs the whole schedule executes: the requested count
    /// rounded up to the next multiple of the batch width.
    pub open spec fn plan(self) -> int {
        planned_total(self.config.iterations as int, self.config.worker_count)
    }

    /// Starts a run: nothing completed, nothing accumulated.
    pub fn new(config: BenchConfig) -> (r: BenchRun)
        requires
            config.valid(),
        ensures
            r.wf(),
            r.config == config,
            r.completed == 0,
            r.total_millis == 0,
            r.recorded@ == Seq::<u128>::empty(),
    {
        BenchRun { config, completed: 0, total_millis: 0, recorded: Ghost(Seq::empty()) }
    }

    /// Asks the planner for the next batch. While fewer runs have
    /// completed than were requested, the next batch holds exactly one
    /// request per worker (one request in all, sequentially); once the
    /// requested count is reached, the schedule is over.
    pub fn next_batch_size(&self) -> (r: Option<u32>)
        requires
            self.wf(),
        ensures
            self.completed < self.config.iterations ==> (r matches Some(w) && w as int
                == self.width()),
            self.completed >= self.config.iterations ==> r is None,
    {
        if self.completed < self.config.iterations as u64 {
            match self.config.worker_count {
                Some(w) => Some(w),
                None => Some(1),
            }
        } else {
            None
        }
    }

    /// Records what one run request reported. A completed request folds
    /// its elapsed time into the running total — accumulation is a plain
    /// sum, so the arrival order does not matter — and the run goes on;
    /// a failed request, or a result the counters cannot hold, aborts the
    /// whole run on the spot and leaves the state untouched.
    pub fn record_event(&mut self, event: RunEvent) -> (r: StepOutcome)
        requires
            old(self).wf(),
        ensures
            final(self).wf(),
            final(self).config == old(self).config,
            r is Continue <==> (event matches RunEvent::Completed(e) && old(self).total_millis
                + e <= u128::MAX && old(self).completed < u64::MAX),
            r is Continue ==> (event matches RunEvent::Completed(e) && {
                &&& final(self).completed == old(self).completed + 1
                &&& final(self).total_millis == old(self).total_millis + e
                &&& final(self).recorded@ == old(self).recorded@.push(e)
            }),
            r is Abort ==> *final(self) == *old(self),
    {
        match event {
            RunEvent::Completed(elapsed) => {
                if self.completed < u64::MAX && elapsed <= u128::MAX - self.total_millis {
                    proof {
                        lemma_sum_push(self.recorded@, elapsed);
                    }
                    self.total_millis = self.total_millis + elapsed;
                    self.completed = self.completed + 1;
                    self.recorded = Ghost(self.recorded@.push(elapsed));
                    StepOutcome::Continue
                } else {
                    StepOutcome::Abort
                }
            },
            RunEvent::Failed => StepOutcome::Abort,
        }
    }

    /// Whether the schedule is exhausted: the completed count has reached
    /// the planned total — at least the requested count, aligned to the
    /// batch width, within one batch of the requested count.
    pub fn is_complete(&self) -> (r: bool)
        requires
            self.wf(),
        ensures
            r <==> self.completed as int == self.plan(),
    {
        let w: u64 = match self.config.worker_count {
            Some(w) => w as u64,
            None => 1,
        };
        let i: u64 = self.config.iterations as u64;
        proof {
            lemma_planned_total_unique(
                i as int,
                self.config.worker_count,
                self.completed as int,
            );
        }
        self.completed >= i && self.completed % w == 0 && self.completed < i + w
    }

    /// Produces the final report of a fully executed schedule. The total
    /// is the sum of every recorded elapsed time; the average is the
    /// total divided by the completed count, which is always at least
    /// one, so the division is safe.
    pub fn summary(&self) -> (s: BenchSummary)
        requires
            self.wf(),
            self.completed as int == self.plan(),
        ensures
            s.requested_iterations == self.config.iterations,
            s.completed_iterations == self.completed,
            s.completed_iterations as int == self.plan(),
            s.completed_iterations >= self.config.iterations,
            s.completed_iterations >= 1,
            s.total_millis == self.total_millis,
            s.total_millis as int == sum_millis(self.recorded@),
            s.average_millis as int == self.total_millis as int / (self.completed as int),
    {
        proof {
            lemma_planned_total_bounds(
                self.config.iterations as int,
                self.config.worker_count,
            );
        }
        let average = self.total_millis / (self.completed as u128);
        BenchSummary {
            requested_iterations: self.config.iterations,
            completed_iterations: self.completed,
            total_millis: self.total_millis,
            average_millis: average,
        }
    }
}

/// With no worker pool, a fully executed schedule completes exactly the
/// requested number of iterations: one recorded result per requested
/// iteration, no more and no fewer.
pub proof fn lemma_sequential_completion(run: BenchRun)
    requires
        run.wf(),
        run.config.worker_count is None,
        run.completed as int == run.plan(),
    ensures
        run.completed == run.config.iterations,
        run.recorded@.len() == run.config.iterations,
{
    lemma_sequential_plan(run.config.iterations as int);
}

/// With a worker pool, a fully executed schedule completes the requested
/// count rounded up to the next multiple of the pool width — never fewer
/// than requested, and aligned to whole batches.
pub proof fn lemma_batched_completion(run: BenchRun)
    requires
        run.wf(),
        run.config.worker_count is Some,
        run.completed as int == run.plan(),
    ensures
        run.completed as int == ((run.config.iterations + run.width() - 1) / run.width())
            * run.width(),
        run.completed >= run.config.iterations,
        run.completed as int % run.width() == 0,
        run.completed < run.config.iterations + run.width(),
{
    lemma_planned_total_bounds(run.config.iterations as int, run.config.worker_count);
}

/// The accumulated total of a run is exactly the sum of all elapsed times
/// it recorded.
pub proof fn lemma_total_is_sum(run: BenchRun)
    requires
        run.wf(),
    ensures
        run.total_millis as int == sum_millis(run.recorded@),
{
}

/// Order-independence of accumulation: two runs that recorded the same
/// collection of elapsed times — in any order, however results were
/// interleaved across workers — accumulated the same total.
pub proof fn lemma_total_order_independent(a: BenchRun, b: BenchRun)
    requires
        a.wf(),
        b.wf(),
        a.recorded@.to_multiset() == b.recorded@.to_multiset(),
    ensures
        a.total_millis == b.total_millis,
{
    lemma_sum_order_independent(a.recorded@, b.recorded@);
}

} // verus!
