use workpool::PoolError;
use workpool::ThreadPool;
use workpool::WorkerAction;
use workpool::WorkerState;

#[test]
fn new_creates_exactly_size_live_workers() {
    let pool: ThreadPool<usize> = ThreadPool::new(4);
    assert_eq!(pool.size(), 4);
    for i in 0..4 {
        assert_eq!(pool.worker_status(i), Some(WorkerState::Idle));
    }
    assert_eq!(pool.worker_status(4), None);
    assert!(!pool.shut_down());
}

#[test]
fn zero_size_pool_is_refused() {
    let r = ThreadPool::<usize>::try_new(0);
    assert!(matches!(r, Err(PoolError::InvalidPoolSize)));
}

#[test]
fn positive_size_pool_is_constructed() {
    let r = ThreadPool::<usize>::try_new(2);
    match r {
        Ok(pool) => {
            assert_eq!(pool.size(), 2);
            assert!(!pool.shut_down());
        },
        Err(_) => panic!("a pool of two workers must be constructed"),
    }
}

#[test]
fn shutdown_stops_every_worker() {
    let mut pool: ThreadPool<usize> = ThreadPool::new(3);
    let drained = pool.shutdown();
    assert!(drained.is_empty());
    assert!(pool.shut_down());
    assert_eq!(pool.size(), 3);
    for i in 0..3 {
        assert_eq!(pool.worker_status(i), Some(WorkerState::Stopped));
    }
}

#[test]
fn submit_after_shutdown_is_rejected_and_never_runs() {
    let mut pool: ThreadPool<usize> = ThreadPool::new(1);
    assert_eq!(pool.execute(1), Ok(()));
    let drained = pool.shutdown();
    assert_eq!(drained, vec![1]);
    assert_eq!(pool.execute(2), Err(PoolError::PoolShutDown));
    // A second shutdown is a no-op: the rejected job was never queued.
    let drained_again = pool.shutdown();
    assert!(drained_again.is_empty());
}

#[test]
fn accepted_jobs_run_exactly_once_under_graceful_drain() {
    let mut pool: ThreadPool<usize> = ThreadPool::new(2);
    for i in 0..5 {
        assert_eq!(pool.execute(i), Ok(()));
    }
    let mut executed: Vec<usize> = Vec::new();
    // Each worker takes one job; running it is recording its index.
    for w in 0..2 {
        match pool.worker_poll(w) {
            WorkerAction::Run(job) => executed.push(job),
            _ => panic!("a job is pending, so the worker must receive one"),
        }
    }
    pool.worker_finish(0, true);
    pool.worker_finish(1, true);
    // Shutdown drains the rest; the caller runs each drained job.
    let drained = pool.shutdown();
    for job in drained {
        executed.push(job);
    }
    executed.sort();
    assert_eq!(executed, vec![0, 1, 2, 3, 4]);
}

#[test]
fn two_workers_five_jobs_all_recorded_once() {
    // Pool of two workers, five jobs that each record their own index; after
    // shutdown completes, the record holds all five indices exactly once.
    let mut pool: ThreadPool<usize> = ThreadPool::new(2);
    for i in 0..5 {
        assert_eq!(pool.execute(i), Ok(()));
    }
    let mut record: Vec<usize> = Vec::new();
    // The two workers alternate: take a job, run it, come back for the next.
    loop {
        let mut took_any = false;
        for w in 0..2 {
            match pool.worker_poll(w) {
                WorkerAction::Run(job) => {
                    record.push(job);
                    pool.worker_finish(w, true);
                    took_any = true;
                },
                WorkerAction::Wait => {},
                WorkerAction::Stop => panic!("the queue is open, no worker may stop"),
            }
        }
        if !took_any {
            break;
        }
    }
    let drained = pool.shutdown();
    assert!(drained.is_empty(), "every job was already taken by a worker");
    assert!(pool.shut_down());
    assert_eq!(pool.worker_status(0), Some(WorkerState::Stopped));
    assert_eq!(pool.worker_status(1), Some(WorkerState::Stopped));
    record.sort();
    assert_eq!(record, vec![0, 1, 2, 3, 4]);
}

#[test]
fn failing_job_does_not_stop_its_worker() {
    let mut pool: ThreadPool<usize> = ThreadPool::new(1);
    assert_eq!(pool.execute(1), Ok(()));
    assert_eq!(pool.execute(2), Ok(()));
    // The first job fails while running; the worker survives it.
    match pool.worker_poll(0) {
        WorkerAction::Run(job) => assert_eq!(job, 1),
        _ => panic!("the first job must be handed out"),
    }
    pool.worker_finish(0, false);
    assert_eq!(pool.worker_status(0), Some(WorkerState::Idle));
    // A job submitted afterwards still executes on the same worker.
    match pool.worker_poll(0) {
        WorkerAction::Run(job) => assert_eq!(job, 2),
        _ => panic!("the worker must keep serving jobs after a failure"),
    }
    pool.worker_finish(0, true);
    let drained = pool.shutdown();
    assert!(drained.is_empty());
}

#[test]
fn idle_worker_waits_on_an_empty_open_pool() {
    let mut pool: ThreadPool<usize> = ThreadPool::new(1);
    assert!(matches!(pool.worker_poll(0), WorkerAction::Wait));
    assert_eq!(pool.worker_status(0), Some(WorkerState::Idle));
}

#[test]
fn worker_becomes_busy_while_its_job_runs() {
    let mut pool: ThreadPool<usize> = ThreadPool::new(2);
    assert_eq!(pool.execute(9), Ok(()));
    match pool.worker_poll(1) {
        WorkerAction::Run(job) => assert_eq!(job, 9),
        _ => panic!("a job is pending, so the worker must receive one"),
    }
    assert_eq!(pool.worker_status(1), Some(WorkerState::Busy));
    assert_eq!(pool.worker_status(0), Some(WorkerState::Idle));
    pool.worker_finish(1, true);
    assert_eq!(pool.worker_status(1), Some(WorkerState::Idle));
}
