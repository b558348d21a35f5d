use sb_explorer::error::ServiceBusError;
use sb_explorer::purge::{accumulate_path, relay_progress, PathStep, PurgeOutcome, PurgeTally, ReceiveResult};

fn api(status: u16) -> ServiceBusError {
    ServiceBusError::Api { status, body: String::from("boom") }
}

#[test]
fn purge_counts_every_deletion_across_workers() {
    // Three workers; results in the order they were observed, including a
    // deletion that landed after another worker saw the entity empty.
    let mut tally = PurgeTally::new();
    let observed = vec![
        ReceiveResult::Deleted,
        ReceiveResult::Deleted,
        ReceiveResult::Deleted,
        ReceiveResult::Deleted,
        ReceiveResult::Empty,
        ReceiveResult::Deleted,
        ReceiveResult::Empty,
        ReceiveResult::Empty,
    ];
    for r in observed {
        tally.record(r);
    }
    assert_eq!(tally.count(), 5);
    assert!(tally.is_done());
    assert!(!tally.worker_should_continue(false));
    assert!(matches!(tally.finish(false), PurgeOutcome::Completed(5)));
}

#[test]
fn purge_count_does_not_depend_on_worker_count() {
    for workers in [1usize, 4, 32] {
        let mut tally = PurgeTally::new();
        for _ in 0..100 {
            tally.record(ReceiveResult::Deleted);
        }
        for _ in 0..workers {
            tally.record(ReceiveResult::Empty);
        }
        assert!(matches!(tally.finish(false), PurgeOutcome::Completed(100)));
    }
}

#[test]
fn purge_failing_first_reports_zero() {
    let mut tally = PurgeTally::new();
    assert!(tally.worker_should_continue(false));
    tally.record(ReceiveResult::Failed(api(401)));
    tally.record(ReceiveResult::Failed(api(500)));
    assert!(!tally.worker_should_continue(false));
    match tally.finish(false) {
        PurgeOutcome::Failed(0, ServiceBusError::Api { status: 401, .. }) => {}
        other => panic!("unexpected outcome {:?}", other),
    }
}

#[test]
fn purge_failing_later_keeps_partial_count() {
    let mut tally = PurgeTally::new();
    tally.record(ReceiveResult::Deleted);
    tally.record(ReceiveResult::Deleted);
    tally.record(ReceiveResult::Deleted);
    tally.record(ReceiveResult::Failed(ServiceBusError::Http(String::from("reset"))));
    tally.record(ReceiveResult::Failed(api(503)));
    match tally.finish(true) {
        PurgeOutcome::Failed(3, ServiceBusError::Http(_)) => {}
        other => panic!("unexpected outcome {:?}", other),
    }
}

#[test]
fn purge_cancelled_is_distinct() {
    let mut tally = PurgeTally::new();
    tally.record(ReceiveResult::Deleted);
    tally.record(ReceiveResult::Deleted);
    assert!(!tally.worker_should_continue(true));
    assert!(matches!(tally.finish(true), PurgeOutcome::Cancelled(2)));
}

#[test]
fn purge_paths_accumulate_and_stop() {
    assert!(matches!(accumulate_path(10, PurgeOutcome::Completed(5)), PathStep::Next(15)));
    assert!(matches!(
        accumulate_path(10, PurgeOutcome::Cancelled(2)),
        PathStep::Stop(PurgeOutcome::Cancelled(12))
    ));
    assert!(matches!(
        accumulate_path(7, PurgeOutcome::Failed(1, api(500))),
        PathStep::Stop(PurgeOutcome::Failed(8, ServiceBusError::Api { status: 500, .. }))
    ));
}

#[test]
fn purge_progress_is_throttled() {
    assert_eq!(relay_progress(0, 49), None);
    assert_eq!(relay_progress(0, 50), Some(50));
    assert_eq!(relay_progress(50, 99), None);
    assert_eq!(relay_progress(50, 100), Some(100));
    assert_eq!(relay_progress(100, 20), None);
}
