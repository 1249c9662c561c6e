use std_tcp::pool::{PoolCreationError, StepOutcome, ThreadPool, WorkerState};

#[test]
fn build_rejects_zero() {
    let r = ThreadPool::build(0);
    assert!(matches!(r, Err(PoolCreationError::InvalidInput(0))));
}

#[test]
fn build_yields_requested_workers() {
    for size in [1usize, 2, 4, 8] {
        let p = ThreadPool::build(size).unwrap();
        assert_eq!(p.workers.len(), size);
        for (i, w) in p.workers.iter().enumerate() {
            assert_eq!(w.id, i);
            assert_eq!(w.state, WorkerState::Running);
        }
        assert!(p.sender_open);
        assert!(p.pending.is_empty());
        assert!(p.executed.is_empty());
        assert!(p.submitted.is_empty());
    }
}

#[test]
fn all_jobs_execute_exactly_once_in_order() {
    let mut p = ThreadPool::build(4).unwrap();
    for job in 0..5usize {
        p.execute(job);
    }
    p.teardown();
    assert_eq!(p.executed, vec![0, 1, 2, 3, 4]);
    assert_eq!(p.executed, p.submitted);
}

#[test]
fn more_jobs_than_workers_none_dropped() {
    let mut p = ThreadPool::build(4).unwrap();
    for job in 0..10usize {
        p.execute(job);
    }
    assert_eq!(p.pending.len(), 10);
    p.teardown();
    assert_eq!(p.executed.len(), 10);
    assert_eq!(p.executed, p.submitted);
    assert!(p.pending.is_empty());
}

#[test]
fn teardown_drains_then_stops_every_worker() {
    let mut p = ThreadPool::build(3).unwrap();
    p.execute(1);
    p.execute(2);
    p.teardown();
    assert!(!p.sender_open);
    assert!(p.pending.is_empty());
    assert_eq!(p.executed, vec![1, 2]);
    assert_eq!(p.workers.len(), 3);
    for w in &p.workers {
        assert_eq!(w.state, WorkerState::Stopped);
    }
}

#[test]
fn slow_job_does_not_stall_second_worker() {
    let mut p = ThreadPool::build(2).unwrap();
    p.execute(1);
    p.execute(2);
    let first = p.worker_step(0);
    assert_eq!(first, StepOutcome::Ran(1));
    let second = p.worker_step(1);
    assert_eq!(second, StepOutcome::Ran(2));
    assert_eq!(p.workers[0].state, WorkerState::Running);
    assert_eq!(p.workers[1].state, WorkerState::Running);
}

#[test]
fn worker_waits_while_channel_open_and_empty() {
    let mut p = ThreadPool::build(2).unwrap();
    let r = p.worker_step(0);
    assert_eq!(r, StepOutcome::Idle);
    assert_eq!(p.workers[0].state, WorkerState::Running);
}

#[test]
fn worker_stops_only_after_close_and_drain() {
    let mut p = ThreadPool::build(1).unwrap();
    p.execute(9);
    p.close();
    let r = p.worker_step(0);
    assert_eq!(r, StepOutcome::Ran(9));
    assert_eq!(p.workers[0].state, WorkerState::Running);
    let r = p.worker_step(0);
    assert_eq!(r, StepOutcome::Shutdown);
    assert_eq!(p.workers[0].state, WorkerState::Stopped);
}

#[test]
fn four_workers_two_jobs_set_equality() {
    let mut p = ThreadPool::build(4).unwrap();
    p.execute(101);
    p.execute(202);
    p.teardown();
    let mut seen = p.executed.clone();
    seen.sort();
    assert_eq!(seen, vec![101, 202]);
}

#[test]
fn one_worker_three_jobs_counter_reaches_three() {
    let mut p = ThreadPool::build(1).unwrap();
    for job in [7usize, 7, 7] {
        p.execute(job);
    }
    p.teardown();
    assert_eq!(p.executed.len(), 3);
}
