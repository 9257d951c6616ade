use benchrun::config::BenchConfig;
use benchrun::planner::planned_count;
use benchrun::run::{BenchRun, RunEvent, StepOutcome};

fn run_for(iterations: u32, workers: Option<u32>) -> BenchRun {
    let c = BenchConfig::new(iterations, String::from("true"), false, false, workers).unwrap();
    BenchRun::new(c)
}

/// Drives a whole run, handing every request the given elapsed time.
/// Returns the batch sizes that were dispatched.
fn drive(run: &mut BenchRun, elapsed: u128) -> Vec<u32> {
    let mut batches = Vec::new();
    while let Some(size) = run.next_batch_size() {
        batches.push(size);
        for _ in 0..size {
            let outcome = run.record_event(RunEvent::Completed(elapsed));
            assert_eq!(outcome, StepOutcome::Continue);
        }
    }
    batches
}

#[test]
fn five_iterations_two_workers_overruns_to_six() {
    let mut run = run_for(5, Some(2));
    let batches = drive(&mut run, 7);
    assert_eq!(batches, vec![2, 2, 2]);
    assert!(run.is_complete());
    let s = run.summary();
    assert_eq!(s.requested_iterations, 5);
    assert_eq!(s.completed_iterations, 6);
    assert_eq!(s.total_millis, 42);
    assert_eq!(s.average_millis, 7);
}

#[test]
fn three_iterations_sequential_dispatches_three() {
    let mut run = run_for(3, None);
    let batches = drive(&mut run, 10);
    assert_eq!(batches, vec![1, 1, 1]);
    assert!(run.is_complete());
    let s = run.summary();
    assert_eq!(s.requested_iterations, 3);
    assert_eq!(s.completed_iterations, 3);
    assert_eq!(s.total_millis, 30);
    assert_eq!(s.average_millis, 10);
}

#[test]
fn evenly_divisible_pool_does_not_overrun() {
    let mut run = run_for(4, Some(2));
    let batches = drive(&mut run, 1);
    assert_eq!(batches, vec![2, 2]);
    assert_eq!(run.summary().completed_iterations, 4);
}

#[test]
fn pool_wider_than_iterations_runs_one_batch() {
    let mut run = run_for(3, Some(5));
    let batches = drive(&mut run, 2);
    assert_eq!(batches, vec![5]);
    assert_eq!(run.summary().completed_iterations, 5);
}

#[test]
fn single_iteration_single_batch() {
    let mut run = run_for(1, None);
    let batches = drive(&mut run, 100);
    assert_eq!(batches, vec![1]);
    let s = run.summary();
    assert_eq!(s.completed_iterations, 1);
    assert_eq!(s.average_millis, 100);
}

#[test]
fn total_is_sum_of_recorded_times() {
    let mut run = run_for(3, None);
    for elapsed in [10, 20, 30] {
        assert!(run.next_batch_size().is_some());
        assert_eq!(
            run.record_event(RunEvent::Completed(elapsed)),
            StepOutcome::Continue
        );
    }
    assert_eq!(run.next_batch_size(), None);
    assert_eq!(run.summary().total_millis, 60);
    assert_eq!(run.summary().average_millis, 20);
}

#[test]
fn total_ignores_arrival_order() {
    let mut forward = run_for(3, None);
    let mut backward = run_for(3, None);
    for elapsed in [5, 10, 15] {
        forward.record_event(RunEvent::Completed(elapsed));
    }
    for elapsed in [15, 5, 10] {
        backward.record_event(RunEvent::Completed(elapsed));
    }
    assert_eq!(forward.total_millis, backward.total_millis);
    assert_eq!(forward.total_millis, 30);
}

#[test]
fn average_uses_integer_division() {
    let mut run = run_for(2, None);
    run.record_event(RunEvent::Completed(10));
    run.record_event(RunEvent::Completed(15));
    let s = run.summary();
    assert_eq!(s.total_millis, 25);
    assert_eq!(s.average_millis, 12);
}

#[test]
fn failure_aborts_immediately() {
    let mut run = run_for(3, None);
    let outcome = run.record_event(RunEvent::Failed);
    assert_eq!(outcome, StepOutcome::Abort);
    assert_eq!(run.completed, 0);
    assert_eq!(run.total_millis, 0);
}

#[test]
fn failure_after_successful_batches_still_aborts() {
    let mut run = run_for(5, Some(2));
    for _ in 0..2 {
        assert_eq!(
            run.record_event(RunEvent::Completed(4)),
            StepOutcome::Continue
        );
    }
    let outcome = run.record_event(RunEvent::Failed);
    assert_eq!(outcome, StepOutcome::Abort);
    assert!(!run.is_complete());
    assert_eq!(run.completed, 2);
    assert_eq!(run.total_millis, 8);
}

#[test]
fn overflow_of_total_aborts() {
    let mut run = run_for(3, None);
    assert_eq!(
        run.record_event(RunEvent::Completed(u128::MAX)),
        StepOutcome::Continue
    );
    let outcome = run.record_event(RunEvent::Completed(1));
    assert_eq!(outcome, StepOutcome::Abort);
    assert_eq!(run.completed, 1);
    assert_eq!(run.total_millis, u128::MAX);
}

#[test]
fn is_complete_only_at_end_of_schedule() {
    let mut run = run_for(2, None);
    assert!(!run.is_complete());
    run.record_event(RunEvent::Completed(1));
    assert!(!run.is_complete());
    run.record_event(RunEvent::Completed(1));
    assert!(run.is_complete());
}

#[test]
fn planned_count_matches_batch_alignment() {
    assert_eq!(planned_count(5, Some(2)), 6);
    assert_eq!(planned_count(4, Some(2)), 4);
    assert_eq!(planned_count(3, Some(5)), 5);
    assert_eq!(planned_count(20, None), 20);
    assert_eq!(planned_count(1, None), 1);
    assert_eq!(planned_count(7, Some(3)), 9);
}
