//! The shared FIFO work queue: the synchronized hand-off structure between
//! submitters and workers.
//!
//! The queue is an ordered sequence of pending jobs plus an open/closed flag.
//! While open it accepts new jobs; once closed it accepts none, but still
//! hands out whatever is pending (graceful drain) before telling consumers to
//! stop.  Two ghost histories — every job ever accepted and every job ever
//! handed out — let the contracts state FIFO order and exactly-once delivery.

use vstd::prelude::*;

verus! {

/// Error returned by [`WorkQueue::enqueue`] once the queue has been closed.
#[derive(Clone, Copy, Debug, PartialEq, Eq, Structural)]
pub struct QueueClosed;

/// The outcome of one dequeue attempt by a consumer.
pub enum DequeueStep<T> {
    /// The earliest pending job, removed from the queue; ownership moves to
    /// the consumer, which must run it.
    Job(T),
    /// The queue is open but empty: the consumer should block until woken and
    /// then try again.
    Wait,
    /// The queue is closed and fully drained: the consumer's loop must end.
    Stop,
}

/// An ordered multi-producer/multi-consumer queue of jobs with an open/closed
/// lifecycle.  Each job is delivered to exactly one consumer, in FIFO order.
pub struct WorkQueue<T> {
    pending: Vec<T>,
    closed: bool,
    accepted: Ghost<Seq<T>>,
    delivered: Ghost<Seq<T>>,
}

impl<T> WorkQueue<T> {
    /// The jobs accepted but not yet handed out, in arrival order.
    pub closed spec fn pending_jobs(self) -> Seq<T> {
        self.pending@
    }

    /// Whether `close` has been called: once true, no new job is accepted.
    pub closed spec fn is_closed(self) -> bool {
        self.closed
    }

    /// Every job ever accepted by `enqueue`, in submission order.
    pub closed spec fn accepted(self) -> Seq<T> {
        self.accepted@
    }

    /// Every job ever handed out to a consumer, in hand-out order.
    pub closed spec fn delivered(self) -> Seq<T> {
        self.delivered@
    }

    /// Queue invariant: the accepted history splits exactly into the jobs
    /// already handed out followed by the jobs still pending.  A job is
    /// therefore never duplicated and never lost while the queue lives.
    pub open spec fn wf(self) -> bool {
        self.accepted() == self.delivered() + self.pending_jobs()
    }

    /// Creates an open, empty queue with empty histories.
    pub fn new() -> (q: WorkQueue<T>)
        ensures
            q.wf(),
            !q.is_closed(),
            q.pending_jobs() == Seq::<T>::empty(),
            q.accepted() == Seq::<T>::empty(),
            q.delivered() == Seq::<T>::empty(),
    {
        let q = WorkQueue {
            pending: Vec::new(),
            closed: false,
            accepted: Ghost(Seq::empty()),
            delivered: Ghost(Seq::empty()),
        };
        proof {
            assert(q.accepted() =~= q.delivered() + q.pending_jobs());
        }
        q
    }

    /// Adds `job` to the back of the pending sequence if the queue is open;
    /// fails with `QueueClosed`, leaving the queue unchanged, if shutdown has
    /// already been initiated.  Never blocks the producer.
    pub fn enqueue(&mut self, job: T) -> (r: Result<(), QueueClosed>)
        requires
            old(self).wf(),
        ensures
            final(self).wf(),
            final(self).is_closed() == old(self).is_closed(),
            old(self).is_closed() ==> r == Err::<(), QueueClosed>(QueueClosed)
                && *final(self) == *old(self),
            !old(self).is_closed() ==> r == Ok::<(), QueueClosed>(())
                && final(self).pending_jobs() == old(self).pending_jobs().push(job)
                && final(self).accepted() == old(self).accepted().push(job)
                && final(self).delivered() == old(self).delivered(),
    {
        if self.closed {
            Err(QueueClosed)
        } else {
            self.accepted = Ghost(self.accepted@.push(job));
            self.pending.push(job);
            proof {
                assert(self.accepted() =~= self.delivered() + self.pending_jobs());
            }
            Ok(())
        }
    }

    /// Whether `close` has been called.
    pub fn closed_now(&self) -> (b: bool)
        ensures
            b == self.is_closed(),
    {
        self.closed
    }

    /// How many jobs are pending.
    pub fn pending_len(&self) -> (n: usize)
        ensures
            n == self.pending_jobs().len(),
    {
        self.pending.len()
    }

    /// One consumer step.  If a job is pending, the earliest one is removed
    /// and returned (`Job`), whether or not the queue is closed — pending jobs
    /// are drained gracefully after `close`.  On an empty open queue the
    /// consumer is told to block (`Wait`); on an empty closed queue its loop
    /// must end (`Stop`).
    pub fn dequeue_step(&mut self) -> (r: DequeueStep<T>)
        requires
            old(self).wf(),
        ensures
            final(self).wf(),
            final(self).is_closed() == old(self).is_closed(),
            final(self).accepted() == old(self).accepted(),
            old(self).pending_jobs().len() > 0 ==> {
                &&& r == DequeueStep::Job(old(self).pending_jobs()[0])
                &&& final(self).pending_jobs() == old(self).pending_jobs().drop_first()
                &&& final(self).delivered() == old(self).delivered().push(
                    old(self).pending_jobs()[0],
                )
            },
            old(self).pending_jobs().len() == 0 && !old(self).is_closed() ==> r
                == DequeueStep::<T>::Wait && *final(self) == *old(self),
            old(self).pending_jobs().len() == 0 && old(self).is_closed() ==> r
                == DequeueStep::<T>::Stop && *final(self) == *old(self),
    {
        if self.pending.len() > 0 {
            self.delivered = Ghost(self.delivered@.push(self.pending@[0]));
            let job = self.pending.remove(0);
            proof {
                assert(self.pending_jobs() =~= old(self).pending_jobs().drop_first());
                assert(self.accepted() =~= self.delivered() + self.pending_jobs());
            }
            DequeueStep::Job(job)
        } else if self.closed {
            DequeueStep::Stop
        } else {
            DequeueStep::Wait
        }
    }

    /// Initiates shutdown: marks the queue closed.  Pending jobs and both
    /// histories are untouched, so closing is idempotent — a second call
    /// leaves exactly the state the first one left.
    pub fn close(&mut self)
        requires
            old(self).wf(),
        ensures
            final(self).wf(),
            final(self).is_closed(),
            final(self).pending_jobs() == old(self).pending_jobs(),
            final(self).accepted() == old(self).accepted(),
            final(self).delivered() == old(self).delivered(),
    {
        self.closed = true;
    }

    /// Closes the queue and hands out every job still pending, in FIFO order.
    /// This is the graceful-drain shutdown policy: jobs accepted before the
    /// close are delivered rather than discarded, so afterwards every
    /// accepted job has been handed out exactly once.
    pub fn close_and_drain(&mut self) -> (drained: Vec<T>)
        requires
            old(self).wf(),
        ensures
            final(self).wf(),
            final(self).is_closed(),
            final(self).pending_jobs().len() == 0,
            final(self).accepted() == old(self).accepted(),
            drained@ == old(self).pending_jobs(),
            final(self).delivered() == old(self).delivered() + old(self).pending_jobs(),
            final(self).delivered() == final(self).accepted(),
    {
        self.close();
        let mut drained: Vec<T> = Vec::new();
        while self.pending.len() > 0
            invariant
                self.wf(),
                self.is_closed(),
                self.accepted() == old(self).accepted(),
                old(self).pending_jobs() == drained@ + self.pending_jobs(),
                self.delivered() == old(self).delivered() + drained@,
            decreases self.pending_jobs().len(),
        {
            match self.dequeue_step() {
                DequeueStep::Job(job) => {
                    drained.push(job);
                    proof {
                        assert(old(self).pending_jobs() =~= drained@ + self.pending_jobs());
                        assert(self.delivered() =~= old(self).delivered() + drained@);
                    }
                },
                DequeueStep::Stop => {
                    proof {
                        assert(false);
                    }
                },
                DequeueStep::Wait => {
                    proof {
                        assert(false);
                    }
                },
            }
        }
        proof {
            assert(drained@ =~= old(self).pending_jobs());
            assert(self.delivered() =~= self.accepted());
        }
        drained
    }
}

/// Delivery follows submission: the jobs handed out so far are exactly the
/// earliest accepted jobs, in their submission order (pure FIFO).
pub proof fn lemma_fifo_delivery<T>(q: WorkQueue<T>)
    requires
        q.wf(),
    ensures
        q.delivered() == q.accepted().take(q.delivered().len() as int),
        forall|i: int| 0 <= i < q.delivered().len() ==> q.delivered()[i] == q.accepted()[i],
{
    assert(q.delivered() =~= q.accepted().take(q.delivered().len() as int));
}

/// At-most-once delivery: no job is ever handed out more often than it was
/// accepted, whatever the interleaving of producers and consumers.
pub proof fn lemma_at_most_once_delivery<T>(q: WorkQueue<T>, job: T)
    requires
        q.wf(),
    ensures
        q.delivered().to_multiset().count(job) <= q.accepted().to_multiset().count(job),
{
    vstd::seq_lib::lemma_multiset_commutative(q.delivered(), q.pending_jobs());
}

/// Exactly-once delivery after a full drain: once the queue is empty — as it
/// is when shutdown completes under the graceful-drain policy — the hand-out
/// history equals the acceptance history, so every accepted job was delivered
/// exactly once, and in submission order.
pub proof fn lemma_exactly_once_when_drained<T>(q: WorkQueue<T>)
    requires
        q.wf(),
        q.pending_jobs().len() == 0,
    ensures
        q.delivered() == q.accepted(),
{
    assert(q.delivered() =~= q.accepted());
}

/// A job the queue never accepted is never handed out, so a submission
/// rejected after shutdown does not run.
pub proof fn lemma_rejected_never_delivered<T>(q: WorkQueue<T>, job: T)
    requires
        q.wf(),
        !q.accepted().contains(job),
    ensures
        !q.delivered().contains(job),
{
    assert forall|i: int| 0 <= i < q.delivered().len() implies q.delivered()[i] != job by {
        assert(q.accepted()[i] == q.delivered()[i]);
    }
}

} // verus!
