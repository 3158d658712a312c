use std::sync::atomic::{AtomicUsize, Ordering};
use std::sync::Arc;
use web_server::pool::{Dispatcher, Message, PoolError, WorkerState};

type Job = Box<dyn FnOnce() + Send>;

/// Lets worker `id` take and run one message; returns false once it stopped
/// or when nothing was waiting.
fn step<J: FnOnce()>(d: &mut Dispatcher<J>, id: usize) -> bool {
    match d.take(id) {
        Some(Message::NewJob(job)) => {
            job();
            assert!(d.finish(id));
            true
        }
        Some(Message::Terminate) => false,
        None => false,
    }
}

fn new_pool<J>(size: usize) -> Dispatcher<J> {
    match Dispatcher::new(size) {
        Ok(d) => d,
        Err(e) => panic!("pool of {} refused: {:?}", size, e),
    }
}

#[test]
fn pool_of_n_slots_joins_n() {
    for n in [1usize, 2, 5] {
        let mut d: Dispatcher<u32> = new_pool(n);
        assert_eq!(d.size(), n);
        for id in 0..n {
            assert_eq!(d.state_of(id), Some(WorkerState::Running));
        }
        assert_eq!(d.state_of(n), None);
        assert_eq!(d.close(), n);
        assert_eq!(d.pending(), n);
        for id in 0..n {
            assert!(matches!(d.take(id), Some(Message::Terminate)));
            assert_eq!(d.state_of(id), Some(WorkerState::Stopped));
        }
        assert_eq!(d.pending(), 0);
        let mut joined = 0;
        while let Some(slot) = d.next_to_join() {
            assert_eq!(slot, joined);
            assert!(d.record_join(slot));
            joined += 1;
        }
        assert_eq!(joined, n);
        assert!(d.finished());
        assert!(!d.record_join(0));
        assert!(!d.record_join(n));
    }
}

#[test]
fn zero_size_is_refused() {
    assert!(matches!(Dispatcher::<u32>::new(0), Err(PoolError::ZeroSize)));
}

#[test]
fn every_job_runs_once() {
    let mut d: Dispatcher<u32> = new_pool(3);
    for j in 0..10u32 {
        assert_eq!(d.submit(j), Ok(()));
    }
    d.close();
    let mut seen = Vec::new();
    let mut stopped = 0;
    let mut id = 0;
    while stopped < 3 {
        match d.take(id) {
            Some(Message::NewJob(j)) => {
                seen.push(j);
                assert!(d.finish(id));
            }
            Some(Message::Terminate) => stopped += 1,
            None => {}
        }
        id = (id + 1) % 3;
    }
    seen.sort();
    assert_eq!(seen, (0..10).collect::<Vec<u32>>());
    assert_eq!(d.pending(), 0);
}

#[test]
fn teardown_waits_for_a_running_job() {
    let mut d: Dispatcher<u32> = new_pool(2);
    assert_eq!(d.submit(7), Ok(()));
    assert!(matches!(d.take(0), Some(Message::NewJob(7))));
    assert_eq!(d.state_of(0), Some(WorkerState::Executing));
    assert_eq!(d.close(), 2);
    assert!(matches!(d.take(1), Some(Message::Terminate)));
    // slot 0 is still in its job: it cannot be joined yet
    assert!(!d.record_join(0));
    assert!(!d.finished());
    // a busy worker takes nothing
    assert!(d.take(0).is_none());
    assert!(d.finish(0));
    assert!(matches!(d.take(0), Some(Message::Terminate)));
    assert!(d.record_join(0));
    assert!(d.record_join(1));
    assert!(d.finished());
}

#[test]
fn single_worker_keeps_submission_order() {
    let mut d: Dispatcher<usize> = new_pool(1);
    let mut log = Vec::new();
    for i in 0..3 {
        assert_eq!(d.submit(i), Ok(()));
    }
    d.close();
    loop {
        match d.take(0) {
            Some(Message::NewJob(i)) => {
                log.push(i);
                assert!(d.finish(0));
            }
            Some(Message::Terminate) => break,
            None => panic!("the queue ran dry before the terminate message"),
        }
    }
    assert!(d.record_join(0));
    assert!(d.finished());
    assert_eq!(log, vec![0, 1, 2]);
}

#[test]
fn hundred_increments_on_four_workers() {
    let counter = Arc::new(AtomicUsize::new(0));
    let mut d: Dispatcher<Job> = new_pool(4);
    for _ in 0..100 {
        let c = Arc::clone(&counter);
        let job: Job = Box::new(move || {
            c.fetch_add(1, Ordering::SeqCst);
        });
        assert!(d.submit(job).is_ok());
    }
    d.close();
    let mut running = [true; 4];
    let mut id = 0;
    while running.iter().any(|r| *r) {
        if running[id] && !step(&mut d, id) && d.state_of(id) == Some(WorkerState::Stopped) {
            running[id] = false;
        }
        id = (id + 1) % 4;
    }
    for slot in 0..4 {
        assert!(d.record_join(slot));
    }
    assert!(d.finished());
    assert_eq!(counter.load(Ordering::SeqCst), 100);
}

#[test]
fn submit_after_teardown_began_fails() {
    let mut d: Dispatcher<u32> = new_pool(2);
    assert_eq!(d.close(), 2);
    assert_eq!(d.submit(1), Err(PoolError::Closed));
    assert_eq!(d.pending(), 2);
    assert!(d.closed());
    // a second teardown sends nothing more
    assert_eq!(d.close(), 0);
    assert_eq!(d.pending(), 2);
}

#[test]
fn a_lost_worker_leaves_the_others_working() {
    let mut d: Dispatcher<u32> = new_pool(3);
    // job 0 is taken by worker 0, whose thread dies in it and never reports back
    assert_eq!(d.submit(0), Ok(()));
    assert!(matches!(d.take(0), Some(Message::NewJob(0))));
    for j in 1..6 {
        assert_eq!(d.submit(j), Ok(()));
    }
    let mut done = Vec::new();
    for round in 0..5 {
        let id = 1 + round % 2;
        match d.take(id) {
            Some(Message::NewJob(j)) => {
                done.push(j);
                assert!(d.finish(id));
            }
            _ => panic!("a live worker found no job"),
        }
    }
    assert_eq!(done, vec![1, 2, 3, 4, 5]);
    assert_eq!(d.close(), 3);
    assert!(matches!(d.take(1), Some(Message::Terminate)));
    assert!(matches!(d.take(2), Some(Message::Terminate)));
    // the lost worker's terminate message is never taken, and its slot
    // cannot be joined: teardown does not complete
    assert_eq!(d.pending(), 1);
    assert_eq!(d.state_of(0), Some(WorkerState::Executing));
    assert!(!d.record_join(0));
    assert!(!d.finished());
}

#[test]
fn requests_from_unknown_or_idle_slots_change_nothing() {
    let mut d: Dispatcher<u32> = new_pool(2);
    assert!(d.take(5).is_none());
    assert!(d.take(0).is_none());
    assert!(!d.finish(0));
    assert!(!d.finish(9));
    assert!(!d.record_join(0));
    assert_eq!(d.next_to_join(), Some(0));
    assert_eq!(d.submit(3), Ok(()));
    assert_eq!(d.pending(), 1);
    assert!(d.take(2).is_none());
    assert_eq!(d.pending(), 1);
}
