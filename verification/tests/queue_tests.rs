use workpool::DequeueStep;
use workpool::QueueClosed;
use workpool::WorkQueue;

#[test]
fn fifo_order_single_producer() {
    let mut q: WorkQueue<usize> = WorkQueue::new();
    assert_eq!(q.enqueue(10), Ok(()));
    assert_eq!(q.enqueue(20), Ok(()));
    assert_eq!(q.enqueue(30), Ok(()));
    assert!(matches!(q.dequeue_step(), DequeueStep::Job(10)));
    assert!(matches!(q.dequeue_step(), DequeueStep::Job(20)));
    assert!(matches!(q.dequeue_step(), DequeueStep::Job(30)));
}

#[test]
fn empty_open_queue_tells_consumer_to_wait() {
    let mut q: WorkQueue<usize> = WorkQueue::new();
    assert!(matches!(q.dequeue_step(), DequeueStep::Wait));
    assert_eq!(q.pending_len(), 0);
    assert!(!q.closed_now());
}

#[test]
fn closed_queue_rejects_new_jobs() {
    let mut q: WorkQueue<usize> = WorkQueue::new();
    assert_eq!(q.enqueue(1), Ok(()));
    q.close();
    assert!(q.closed_now());
    assert_eq!(q.enqueue(2), Err(QueueClosed));
    assert!(matches!(q.dequeue_step(), DequeueStep::Job(1)));
    assert!(matches!(q.dequeue_step(), DequeueStep::Stop));
}

#[test]
fn close_is_idempotent() {
    let mut q: WorkQueue<usize> = WorkQueue::new();
    assert_eq!(q.enqueue(7), Ok(()));
    q.close();
    q.close();
    assert!(q.closed_now());
    assert_eq!(q.pending_len(), 1);
    assert!(matches!(q.dequeue_step(), DequeueStep::Job(7)));
    assert!(matches!(q.dequeue_step(), DequeueStep::Stop));
}

#[test]
fn close_and_drain_returns_pending_in_fifo_order() {
    let mut q: WorkQueue<usize> = WorkQueue::new();
    assert_eq!(q.enqueue(4), Ok(()));
    assert_eq!(q.enqueue(5), Ok(()));
    assert_eq!(q.enqueue(6), Ok(()));
    let drained = q.close_and_drain();
    assert_eq!(drained, vec![4, 5, 6]);
    assert!(q.closed_now());
    assert_eq!(q.pending_len(), 0);
    assert!(matches!(q.dequeue_step(), DequeueStep::Stop));
}

#[test]
fn drain_after_partial_consumption_yields_the_rest() {
    let mut q: WorkQueue<usize> = WorkQueue::new();
    for i in 0..4 {
        assert_eq!(q.enqueue(i), Ok(()));
    }
    assert!(matches!(q.dequeue_step(), DequeueStep::Job(0)));
    let drained = q.close_and_drain();
    assert_eq!(drained, vec![1, 2, 3]);
}
