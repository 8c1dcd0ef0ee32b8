use fluxara_avc::batch::{run_batch, BatchRun, JobOutcome};
use fluxara_avc::error::ToolError;

#[test]
fn five_jobs_two_at_a_time_one_failure() {
    // Five jobs under a bound of two; the third job is engineered to
    // fail. Completion arrives out of order, as it would in a race.
    let mut b = BatchRun::new(5, 2);

    assert!(b.can_start());
    let j0 = b.start();
    assert!(b.can_start());
    let j1 = b.start();
    assert!(!b.can_start());
    assert_eq!(b.in_flight(), 2);

    b.complete(j1, &JobOutcome::Success);
    assert_eq!(b.in_flight(), 1);
    let j2 = b.start();
    assert!(b.in_flight() <= 2);

    b.complete(j2, &JobOutcome::Failure(ToolError::ToolFailed("bad input".to_string())));
    let j3 = b.start();
    assert!(b.in_flight() <= 2);
    b.complete(j0, &JobOutcome::Success);
    let j4 = b.start();
    assert!(b.in_flight() <= 2);
    b.complete(j4, &JobOutcome::Success);
    b.complete(j3, &JobOutcome::Success);

    assert!(b.is_done());
    assert_eq!(b.succeeded, 4);
    assert_eq!(b.failed, 1);
    assert_eq!(b.succeeded + b.failed, b.total());
    assert_eq!(b.in_flight(), 0);
    // Every job completed exactly once.
    assert!(b.completed.iter().all(|c| *c));
    assert_eq!(b.completed.len(), 5);
}

#[test]
fn run_batch_tallies_results() {
    let results = vec![true, true, false, true, true];
    let b = run_batch(&results, 2);
    assert_eq!(b.total(), 5);
    assert_eq!(b.succeeded, 4);
    assert_eq!(b.failed, 1);
    assert!(b.is_done());
}

#[test]
fn empty_batch_is_done_at_once() {
    let results: Vec<bool> = Vec::new();
    let b = run_batch(&results, 3);
    assert!(b.is_done());
    assert_eq!(b.succeeded, 0);
    assert_eq!(b.failed, 0);
}

#[test]
fn outcome_success_test() {
    assert!(JobOutcome::Success.is_success());
    assert!(!JobOutcome::Failure(ToolError::ToolMissing).is_success());
}
