//! The run planner: decides the schedule of command executions.
//!
//! With no worker pool the plan is fully sequential: one batch per
//! requested iteration, each of size one. With a worker pool of width `W`
//! the plan emits batches of exactly `W` requests until the completed
//! count reaches the requested count; when the request count is not a
//! multiple of `W` the last batch still holds `W` requests, so the
//! completed count is rounded up to the next multiple of `W`. This
//! batch-aligned overrun is deliberate policy: the adjusted count is
//! reported to the caller, never the originally requested one.

use vstd::arithmetic::div_mod::{
    lemma_fundamental_div_mod,
    lemma_mod_bound,
    lemma_mod_multiples_basic,
};
use vstd::prelude::*;

verus! {

/// Number of run requests dispatched concurrently in one batch: the
/// worker-pool width when one was given, otherwise one.
pub open spec fn batch_width(worker_count: Option<u32>) -> int {
    match worker_count {
        Some(w) => w as int,
        None => 1,
    }
}

/// How many runs complete over the whole schedule: the requested count
/// rounded up to the next multiple of the batch width.
pub open spec fn planned_total(iterations: int, worker_count: Option<u32>) -> int {
    let w = batch_width(worker_count);
    ((iterations + w - 1) / w) * w
}

/// With no worker pool, exactly the requested number of runs is planned:
/// the schedule is one dispatch per requested iteration.
pub proof fn lemma_sequential_plan(iterations: int)
    requires
        iterations >= 1,
    ensures
        planned_total(iterations, None) == iterations,
{
    lemma_fundamental_div_mod(iterations, 1);
    lemma_mod_bound(iterations, 1);
}

/// Batch-aligned overrun, bounded: the planned total is a multiple of the
/// batch width, is at least the requested count, and overshoots by less
/// than one full batch.
pub proof fn lemma_planned_total_bounds(iterations: int, worker_count: Option<u32>)
    requires
        iterations >= 1,
        worker_count matches Some(w) ==> w >= 1,
    ensures
        planned_total(iterations, worker_count) % batch_width(worker_count) == 0,
        planned_total(iterations, worker_count) >= iterations,
        planned_total(iterations, worker_count) < iterations + batch_width(worker_count),
{
    let w = batch_width(worker_count);
    let m = iterations + w - 1;
    lemma_fundamental_div_mod(m, w);
    lemma_mod_bound(m, w);
    lemma_mod_multiples_basic(m / w, w);
}

/// With a worker pool of width `w`, the completed count is the requested
/// count rounded up to the next multiple of `w`: `ceil(iterations / w) * w`,
/// which is never below the requested count.
pub proof fn lemma_batched_plan(iterations: int, w: u32)
    requires
        iterations >= 1,
        w >= 2,
    ensures
        planned_total(iterations, Some(w)) == ((iterations + w - 1) / (w as int)) * (w as int),
        planned_total(iterations, Some(w)) >= iterations,
        planned_total(iterations, Some(w)) % (w as int) == 0,
        planned_total(iterations, Some(w)) < iterations + w,
{
    lemma_planned_total_bounds(iterations, Some(w));
}

/// The planned total is the only count that is a multiple of the batch
/// width, reaches the requested count, and overshoots by less than one
/// batch. This is what lets a driver recognize the end of the schedule
/// from the completed count alone.
pub proof fn lemma_planned_total_unique(iterations: int, worker_count: Option<u32>, c: int)
    requires
        iterations >= 1,
        worker_count matches Some(w) ==> w >= 1,
    ensures
        (c % batch_width(worker_count) == 0 && iterations <= c < iterations + batch_width(
            worker_count,
        )) <==> c == planned_total(iterations, worker_count),
{
    let w = batch_width(worker_count);
    let p = planned_total(iterations, worker_count);
    lemma_planned_total_bounds(iterations, worker_count);
    if c % w == 0 && iterations <= c < iterations + w {
        lemma_fundamental_div_mod(c, w);
        let k = c / w;
        let m = iterations + w - 1;
        let q = m / w;
        lemma_fundamental_div_mod(m, w);
        lemma_mod_bound(m, w);
        assert(c == w * k);
        assert(p == q * w);
        assert(k == q) by (nonlinear_arith)
            requires
                c == w * k,
                p == q * w,
                w >= 1,
                c - p < w,
                p - c < w,
        ;
        assert(c == w * q);
        assert(w * q == q * w) by (nonlinear_arith);
        assert(c == p);
    }
}

/// Computes the planned total executably: the requested count rounded up
/// to the next multiple of the batch width.
pub fn planned_count(iterations: u32, worker_count: Option<u32>) -> (r: u64)
    requires
        iterations >= 1,
        worker_count matches Some(w) ==> w >= 2,
    ensures
        r as int == planned_total(iterations as int, worker_count),
{
    match worker_count {
        Some(w) => {
            let i = iterations as u64;
            let wd = w as u64;
            proof {
                lemma_planned_total_bounds(iterations as int, worker_count);
            }
            ((i + wd - 1) / wd) * wd
        },
        None => {
            proof {
                lemma_sequential_plan(iterations as int);
            }
            iterations as u64
        },
    }
}

} // verus!
