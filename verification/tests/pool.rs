use ez_http_rs::channel::{PopResult, WorkChannel};
use ez_http_rs::pool::{PoolError, StepOutcome, ThreadPool, WorkerState};

#[test]
fn pool_of_zero_workers_is_rejected() {
    assert!(matches!(ThreadPool::new(0), Err(PoolError::ZeroWorkers)));
}

#[test]
fn pool_spawns_exactly_n_running_workers() {
    for n in 1..6usize {
        let p = ThreadPool::new(n).unwrap();
        assert_eq!(p.worker_count(), n);
        for i in 0..n {
            assert_eq!(p.worker_state(i), WorkerState::Running);
        }
        assert!(p.is_accepting());
        assert_eq!(p.pending_count(), 0);
        assert_eq!(p.completed_count(), 0);
        assert_eq!(p.submitted_count(), 0);
    }
}

#[test]
fn counter_jobs_all_run_exactly_once() {
    let mut p = ThreadPool::new(3).unwrap();
    let k = 5u64;
    let mut counter = 0u64;
    for i in 0..k {
        assert_eq!(p.execute().unwrap(), i);
    }
    assert_eq!(p.pending_count(), 5);
    // every job is dequeued before shutdown begins
    for i in 0..k {
        match p.worker_step((i % 3) as usize) {
            StepOutcome::Ran(ticket) => {
                assert_eq!(ticket, i);
                counter += 1;
            }
            StepOutcome::Exited => panic!("worker exited while work was pending"),
        }
    }
    p.shutdown();
    assert_eq!(counter, k);
    assert_eq!(p.completed_count(), 5);
    let done = p.completed_jobs();
    assert_eq!(done, vec![0, 1, 2, 3, 4]);
    for i in 0..done.len() {
        for j in 0..i {
            assert_ne!(done[i], done[j]);
        }
    }
}

#[test]
fn shutdown_terminates_every_worker() {
    let mut p = ThreadPool::new(4).unwrap();
    p.execute().unwrap();
    p.shutdown();
    for i in 0..4 {
        assert_eq!(p.worker_state(i), WorkerState::Terminated);
    }
    assert!(!p.is_accepting());
    assert_eq!(p.pending_count(), 0);
}

#[test]
fn shutdown_is_idempotent() {
    let mut p = ThreadPool::new(2).unwrap();
    p.execute().unwrap();
    p.execute().unwrap();
    p.shutdown();
    let done_once = p.completed_jobs();
    let states_once: Vec<WorkerState> = (0..2).map(|i| p.worker_state(i)).collect();
    p.shutdown();
    p.shutdown();
    assert_eq!(p.completed_jobs(), done_once);
    for i in 0..2 {
        assert_eq!(p.worker_state(i), states_once[i]);
    }
    assert!(!p.is_accepting());
    assert_eq!(p.pending_count(), 0);
    assert_eq!(p.submitted_count(), 2);
}

#[test]
fn shutdown_drains_pending_work() {
    let mut p = ThreadPool::new(2).unwrap();
    for _ in 0..3 {
        p.execute().unwrap();
    }
    // no worker has dequeued anything yet
    assert_eq!(p.completed_count(), 0);
    p.shutdown();
    assert_eq!(p.completed_jobs(), vec![0, 1, 2]);
}

#[test]
fn thousand_submissions_all_execute() {
    let mut p = ThreadPool::new(10).unwrap();
    for producer in 0..10u64 {
        for step in 0..100u64 {
            assert_eq!(p.execute().unwrap(), producer * 100 + step);
        }
    }
    p.shutdown();
    assert_eq!(p.completed_count(), 1000);
    assert_eq!(p.submitted_count(), 1000);
    let done = p.completed_jobs();
    let mut seen = vec![false; 1000];
    for t in done {
        assert!(!seen[t as usize], "ticket delivered twice");
        seen[t as usize] = true;
    }
    assert!(seen.iter().all(|s| *s), "ticket lost");
}

#[test]
fn submission_after_shutdown_fails_loudly() {
    let mut p = ThreadPool::new(2).unwrap();
    p.execute().unwrap();
    p.shutdown();
    let refused = p.execute().unwrap_err();
    assert_eq!(refused.job, 1);
    // the refused submission left no trace
    assert_eq!(p.submitted_count(), 1);
    assert_eq!(p.pending_count(), 0);
    assert_eq!(p.completed_count(), 1);
}

#[test]
fn channel_delivers_in_order_then_signals_closed() {
    let mut c = WorkChannel::new();
    assert!(c.is_open());
    c.push(7).unwrap();
    c.push(8).unwrap();
    assert_eq!(c.pending(), 2);
    c.close();
    assert_eq!(c.pop(), PopResult::Job(7));
    assert_eq!(c.pop(), PopResult::Job(8));
    assert_eq!(c.pop(), PopResult::Closed);
    assert_eq!(c.pop(), PopResult::Closed);
}

#[test]
fn push_after_close_hands_the_ticket_back() {
    let mut c = WorkChannel::new();
    c.close();
    c.close();
    let e = c.push(42).unwrap_err();
    assert_eq!(e.job, 42);
    assert!(!c.is_open());
    assert_eq!(c.pending(), 0);
}
