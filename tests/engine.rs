use endpoint_tester::{progress_due, LoadState, NetErrKind, Outcome, StopCause};

// Drives `workers` workers in turn against one shared state: each worker
// reserves a slot, and completes it on its next turn, so several requests are
// in flight at once.
fn drive(limit: Option<u64>, workers: usize, outcome: Outcome, micros: u64) -> LoadState {
    let mut s = LoadState::new(limit).unwrap();
    let mut active = vec![true; workers];
    let mut holding = vec![false; workers];
    loop {
        let mut any = false;
        for w in 0..workers {
            if !active[w] {
                continue;
            }
            any = true;
            if holding[w] {
                s.complete(outcome, micros);
                holding[w] = false;
            } else if s.try_reserve(false) {
                holding[w] = true;
            } else {
                active[w] = false;
            }
        }
        if !any {
            break;
        }
    }
    s
}

#[test]
fn all_200_count_target_50_concurrency_4() {
    let s = drive(Some(50), 4, Outcome::Status(200), 120);
    assert_eq!(s.sent, 50);
    assert_eq!(s.completed, 50);
    assert_eq!(s.stop_cause, Some(StopCause::TargetReached));
    let a = &s.aggregates;
    assert_eq!(a.status_class.c2xx, 50);
    assert_eq!(a.status_class.c1xx, 0);
    assert_eq!(a.status_class.c3xx, 0);
    assert_eq!(a.status_class.c4xx, 0);
    assert_eq!(a.status_class.c5xx, 0);
    assert_eq!(a.status_class.other, 0);
    assert_eq!(a.net_errors.total(), 0);
    assert_eq!(a.status_exact.get(&200), Some(&50));
    assert_eq!(a.latency_micros.len(), 50);
}

#[test]
fn all_500_count_target_50() {
    let s = drive(Some(50), 4, Outcome::Status(500), 80);
    assert_eq!(s.completed, 50);
    assert_eq!(s.aggregates.status_class.c5xx, 50);
    assert_eq!(s.aggregates.status_exact.get(&500), Some(&50));
}

#[test]
fn timeouts_count_target_10() {
    let s = drive(Some(10), 4, Outcome::Failed(NetErrKind::Timeout), 50_000);
    assert_eq!(s.completed, 10);
    assert_eq!(s.aggregates.net_errors.timeout, 10);
    assert_eq!(s.aggregates.net_errors.total(), 10);
    assert_eq!(s.failures, 10);
    assert_eq!(s.aggregates.status_class.c2xx, 0);
}

#[test]
fn zero_target_issues_nothing() {
    let s = drive(Some(0), 3, Outcome::Status(200), 10);
    assert_eq!(s.sent, 0);
    assert_eq!(s.completed, 0);
    assert_eq!(s.stop_cause, Some(StopCause::TargetReached));
    assert_eq!(s.aggregates.latency_micros.len(), 0);
}

#[test]
fn exact_target_for_many_worker_counts() {
    for workers in 1..=9usize {
        for target in [0u64, 1, 2, 7, 33] {
            let s = drive(Some(target), workers, Outcome::Status(204), 5);
            assert_eq!(s.sent, target);
            assert_eq!(s.completed, target);
        }
    }
}

#[test]
fn deadline_stops_reservations_for_good() {
    let mut s = LoadState::new(None).unwrap();
    assert!(s.try_reserve(false));
    assert!(s.try_reserve(false));
    assert!(!s.try_reserve(true));
    assert_eq!(s.stop_cause, Some(StopCause::DeadlinePassed));
    assert!(!s.try_reserve(false));
    assert_eq!(s.sent, 2);
    assert_eq!(s.in_flight(), 2);
    s.complete(Outcome::Status(200), 10);
    s.complete(Outcome::Failed(NetErrKind::Connect), 10);
    assert_eq!(s.in_flight(), 0);
    assert_eq!(s.sent, s.completed);
}

#[test]
fn deadline_already_past_issues_nothing() {
    let mut s = LoadState::new(Some(5)).unwrap();
    assert!(!s.try_reserve(true));
    assert_eq!(s.sent, 0);
    assert_eq!(s.stop_cause, Some(StopCause::DeadlinePassed));
}

#[test]
fn mixed_outcomes_add_up() {
    let mut s = LoadState::new(Some(6)).unwrap();
    let outcomes = [
        Outcome::Status(200),
        Outcome::Status(301),
        Outcome::Status(404),
        Outcome::Status(700),
        Outcome::Failed(NetErrKind::Body),
        Outcome::Failed(NetErrKind::Decode),
    ];
    for o in outcomes {
        assert!(s.try_reserve(false));
        let done = s.complete(o, 0);
        assert_eq!(done, s.completed);
    }
    assert!(!s.try_reserve(false));
    let a = &s.aggregates;
    assert_eq!(a.status_class.c2xx, 1);
    assert_eq!(a.status_class.c3xx, 1);
    assert_eq!(a.status_class.c4xx, 1);
    assert_eq!(a.status_class.other, 1);
    assert_eq!(a.status_exact.values().sum::<u64>(), 4);
    assert_eq!(a.net_errors.body, 1);
    assert_eq!(a.net_errors.decode, 1);
    assert_eq!(a.net_errors.total(), 2);
    assert_eq!(s.successes + s.failures, s.completed);
    assert_eq!(a.latency_micros.len(), 6);
    // zero-duration samples are raised to one microsecond
    assert!(a.latency_micros.min() >= 1);
}

#[test]
fn latency_bounds_enclose_samples() {
    let mut s = LoadState::new(Some(3)).unwrap();
    for micros in [5u64, 1000, 250] {
        assert!(s.try_reserve(false));
        s.complete(Outcome::Status(200), micros);
    }
    let h = &s.aggregates.latency_micros;
    assert_eq!(h.len(), 3);
    assert!(h.min() <= 5);
    assert!(h.max() >= 1000);
    let p50 = h.inner.value_at_quantile(0.50);
    let p99 = h.inner.value_at_quantile(0.99);
    assert!(p50 <= p99 && p99 <= h.max());
}

#[test]
fn progress_every_interval() {
    assert!(progress_due(1000, 1000));
    assert!(progress_due(2000, 1000));
    assert!(!progress_due(999, 1000));
    assert!(!progress_due(1000, 0));
}

#[test]
fn zero_latency_is_one_microsecond() {
    let mut a = endpoint_tester::Aggregates::new().unwrap();
    a.record_latency(0);
    assert_eq!(a.latency_micros.len(), 1);
    assert_eq!(a.latency_micros.min(), 1);
    assert_eq!(a.latency_micros.max(), 1);
}

#[test]
fn min_max_within_resolution() {
    let mut a = endpoint_tester::Aggregates::new().unwrap();
    for v in [3_000_001u64, 17, 1_500_000_000] {
        a.record_latency(v);
    }
    let h = &a.latency_micros;
    assert_eq!(h.len(), 3);
    assert!(h.min() <= 17 && 17 - h.min() <= 17 / 1024);
    assert!(h.max() >= 1_500_000_000 && h.max() - 1_500_000_000 <= 1_500_000_000 / 1024);
}

#[test]
fn every_completion_leaves_a_sample() {
    let mut s = LoadState::new(None).unwrap();
    for i in 0..20u64 {
        assert!(s.try_reserve(false));
        let o = if i % 3 == 0 {
            Outcome::Failed(NetErrKind::Other)
        } else {
            Outcome::Status(200)
        };
        s.complete(o, u64::MAX - i);
    }
    assert_eq!(s.aggregates.latency_micros.len(), s.completed);
}
