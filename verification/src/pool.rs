//! The pool: owner of a fixed set of workers and of the producer side of the
//! shared work queue, exposing submission and shutdown to callers.
//!
//! `new` builds the queue and exactly `size` workers; `execute` forwards a
//! job to the queue, failing once shutdown has begun; `shutdown` closes the
//! queue, drains it gracefully, and stops every worker, so that no worker
//! outlives the pool.  `worker_poll` and `worker_finish` are the transitions
//! each worker's thread drives between jobs; every scheduling decision is
//! made inside these verified functions.

use vstd::prelude::*;

use crate::queue::QueueClosed;
use crate::queue::WorkQueue;
use crate::queue::lemma_fifo_delivery;
use crate::queue::lemma_rejected_never_delivered;
use crate::worker::Worker;
use crate::worker::WorkerAction;
use crate::worker::WorkerState;

verus! {

/// The pool's error taxonomy.
#[derive(Clone, Copy, Debug, PartialEq, Eq, Structural)]
pub enum PoolError {
    /// Raised at construction when the requested size is zero: a pool of no
    /// workers can never make progress, so it is never created.
    InvalidPoolSize,
    /// Returned by `execute` after shutdown has begun; the caller may drop or
    /// reroute the job.
    PoolShutDown,
}

/// A fixed-size worker pool.  Jobs are fire-and-forget: submission transfers
/// ownership to the queue, then to whichever worker dequeues the job; no
/// result ever flows back to the submitter.
pub struct ThreadPool<T> {
    queue: WorkQueue<T>,
    workers: Vec<Worker>,
}

impl<T> ThreadPool<T> {
    /// The pool's shared work queue.
    pub closed spec fn queue(self) -> WorkQueue<T> {
        self.queue
    }

    /// The pool's workers, indexed by their ordinal.
    pub closed spec fn workers(self) -> Seq<Worker> {
        self.workers@
    }

    /// The fixed number of workers, chosen at construction.
    pub open spec fn worker_count(self) -> nat {
        self.workers().len()
    }

    /// Whether shutdown has been initiated.
    pub open spec fn is_shut_down(self) -> bool {
        self.queue().is_closed()
    }

    /// Every job accepted by `execute`, in submission order.
    pub open spec fn accepted(self) -> Seq<T> {
        self.queue().accepted()
    }

    /// Every job handed out to a worker, in hand-out order.
    pub open spec fn delivered(self) -> Seq<T> {
        self.queue().delivered()
    }

    /// The jobs accepted but not yet handed out, in submission order.
    pub open spec fn pending(self) -> Seq<T> {
        self.queue().pending_jobs()
    }

    /// Pool invariant: the queue is well formed, there is at least one
    /// worker, and each worker is well formed and carries its index as its
    /// ordinal.
    pub open spec fn wf(self) -> bool {
        &&& self.queue().wf()
        &&& self.worker_count() >= 1
        &&& forall|i: int|
            0 <= i < self.workers().len() ==> (#[trigger] self.workers()[i]).wf()
        &&& forall|i: int|
            0 <= i < self.workers().len() ==> (#[trigger] self.workers()[i]).ordinal() == i
    }

    /// Constructs a pool with exactly `size` live, idle workers sharing one
    /// open, empty queue.  A zero size is a programmer error and is excluded
    /// outright; `try_new` is the recoverable form.
    pub fn new(size: usize) -> (pool: ThreadPool<T>)
        requires
            size >= 1,
        ensures
            pool.wf(),
            pool.worker_count() == size,
            !pool.is_shut_down(),
            pool.accepted() == Seq::<T>::empty(),
            pool.delivered() == Seq::<T>::empty(),
            pool.pending() == Seq::<T>::empty(),
            forall|i: int| 0 <= i < size ==> (#[trigger] pool.workers()[i]).is_idle(),
            forall|i: int| 0 <= i < size ==> (#[trigger] pool.workers()[i]).jobs_begun() == 0,
    {
        let queue = WorkQueue::<T>::new();
        let mut workers: Vec<Worker> = Vec::new();
        let mut id: usize = 0;
        while id < size
            invariant
                id <= size,
                workers@.len() == id,
                forall|i: int|
                    0 <= i < id ==> {
                        &&& (#[trigger] workers@[i]).wf()
                        &&& workers@[i].ordinal() == i
                        &&& workers@[i].is_idle()
                        &&& workers@[i].jobs_begun() == 0
                    },
            decreases size - id,
        {
            workers.push(Worker::new(id));
            id += 1;
        }
        ThreadPool { queue, workers }
    }

    /// The recoverable constructor: refuses a zero size with
    /// `InvalidPoolSize` and otherwise builds the pool exactly as `new` does.
    pub fn try_new(size: usize) -> (r: Result<ThreadPool<T>, PoolError>)
        ensures
            size == 0 <==> r == Err::<ThreadPool<T>, PoolError>(PoolError::InvalidPoolSize),
            size >= 1 ==> {
                &&& r is Ok
                &&& r->Ok_0.wf()
                &&& r->Ok_0.worker_count() == size
                &&& !r->Ok_0.is_shut_down()
                &&& r->Ok_0.accepted() == Seq::<T>::empty()
                &&& r->Ok_0.delivered() == Seq::<T>::empty()
                &&& r->Ok_0.pending() == Seq::<T>::empty()
                &&& forall|i: int| 0 <= i < size ==> (#[trigger] r->Ok_0.workers()[i]).is_idle()
            },
    {
        if size == 0 {
            Err(PoolError::InvalidPoolSize)
        } else {
            Ok(ThreadPool::new(size))
        }
    }

    /// Submits a job.  While the pool is open the job is accepted and joins
    /// the back of the queue; after shutdown has begun the call fails with
    /// `PoolShutDown`, the pool is unchanged, and — the job never having been
    /// accepted — it will never be handed out or run.  Never blocks and
    /// returns nothing of the job's outcome (fire and forget).
    pub fn execute(&mut self, job: T) -> (r: Result<(), PoolError>)
        requires
            old(self).wf(),
        ensures
            final(self).wf(),
            final(self).workers() == old(self).workers(),
            final(self).is_shut_down() == old(self).is_shut_down(),
            old(self).is_shut_down() ==> r == Err::<(), PoolError>(PoolError::PoolShutDown)
                && *final(self) == *old(self),
            !old(self).is_shut_down() ==> {
                &&& r == Ok::<(), PoolError>(())
                &&& final(self).pending() == old(self).pending().push(job)
                &&& final(self).accepted() == old(self).accepted().push(job)
                &&& final(self).delivered() == old(self).delivered()
            },
    {
        match self.queue.enqueue(job) {
            Ok(()) => Ok(()),
            Err(QueueClosed) => Err(PoolError::PoolShutDown),
        }
    }

    /// One turn of worker `i`'s loop, taken only between that worker's jobs.
    /// All other workers are untouched: the workers race only through the
    /// queue.  If a job is pending, worker `i` becomes busy with the earliest
    /// one and its thread must run it, reporting back through
    /// `worker_finish`; on an empty open queue the thread is told to block;
    /// on an empty closed queue worker `i` stops for good.
    pub fn worker_poll(&mut self, i: usize) -> (r: WorkerAction<T>)
        requires
            old(self).wf(),
            i < old(self).worker_count(),
            old(self).workers()[i as int].is_idle(),
        ensures
            final(self).wf(),
            final(self).worker_count() == old(self).worker_count(),
            final(self).is_shut_down() == old(self).is_shut_down(),
            final(self).accepted() == old(self).accepted(),
            forall|j: int|
                0 <= j < old(self).workers().len() && j != i
                    ==> final(self).workers()[j] == old(self).workers()[j],
            final(self).workers()[i as int].jobs_ended() == old(self).workers()[
                i as int
            ].jobs_ended(),
            old(self).pending().len() > 0 ==> {
                &&& r == WorkerAction::Run(old(self).pending()[0])
                &&& final(self).workers()[i as int].is_busy()
                &&& final(self).workers()[i as int].jobs_begun() == old(self).workers()[
                    i as int
                ].jobs_begun() + 1
                &&& final(self).pending() == old(self).pending().drop_first()
                &&& final(self).delivered() == old(self).delivered().push(old(self).pending()[0])
            },
            old(self).pending().len() == 0 && !old(self).is_shut_down() ==> r
                == WorkerAction::<T>::Wait && final(self).workers() == old(self).workers()
                && final(self).queue() == old(self).queue(),
            old(self).pending().len() == 0 && old(self).is_shut_down() ==> r
                == WorkerAction::<T>::Stop && final(self).workers()[i as int].is_stopped()
                && final(self).queue() == old(self).queue(),
    {
        let mut w = self.workers[i];
        let r = w.poll(&mut self.queue);
        self.workers[i] = w;
        proof {
            if old(self).pending().len() == 0 && !old(self).is_shut_down() {
                assert(final(self).workers() =~= old(self).workers());
            }
        }
        r
    }

    /// Ends the one job worker `i` is busy with; the worker returns to
    /// `Idle`, whether or not the job succeeded — a failing job never
    /// terminates its worker.  Nothing else in the pool changes.
    pub fn worker_finish(&mut self, i: usize, succeeded: bool)
        requires
            old(self).wf(),
            i < old(self).worker_count(),
            old(self).workers()[i as int].is_busy(),
        ensures
            final(self).wf(),
            final(self).worker_count() == old(self).worker_count(),
            final(self).queue() == old(self).queue(),
            forall|j: int|
                0 <= j < old(self).workers().len() && j != i
                    ==> final(self).workers()[j] == old(self).workers()[j],
            final(self).workers()[i as int].is_idle(),
            final(self).workers()[i as int].jobs_begun() == old(self).workers()[
                i as int
            ].jobs_begun(),
            final(self).workers()[i as int].jobs_ended() == old(self).workers()[
                i as int
            ].jobs_ended() + 1,
            final(self).workers()[i as int].jobs_failed() == old(self).workers()[
                i as int
            ].jobs_failed() + (
            if succeeded {
                0nat
            } else {
                1nat
            }),
    {
        let mut w = self.workers[i];
        w.finish(succeeded);
        self.workers[i] = w;
    }

    /// Shuts the pool down under the graceful-drain policy: closes the
    /// queue, hands out every job still pending — returned in FIFO order for
    /// the caller to run — and stops every worker.  Afterwards the pool
    /// holds no live worker, no job is pending, and every accepted job has
    /// been handed out exactly once.  Taken only between jobs (no worker
    /// busy), as the real shutdown returns only once in-flight jobs ended;
    /// repeating it changes nothing and drains nothing.
    pub fn shutdown(&mut self) -> (drained: Vec<T>)
        requires
            old(self).wf(),
            forall|i: int|
                0 <= i < old(self).workers().len()
                    ==> !(#[trigger] old(self).workers()[i]).is_busy(),
        ensures
            final(self).wf(),
            final(self).is_shut_down(),
            final(self).worker_count() == old(self).worker_count(),
            forall|i: int|
                0 <= i < final(self).workers().len()
                    ==> (#[trigger] final(self).workers()[i]).is_stopped(),
            final(self).accepted() == old(self).accepted(),
            final(self).pending().len() == 0,
            drained@ == old(self).pending(),
            final(self).delivered() == old(self).delivered() + drained@,
            final(self).delivered() == final(self).accepted(),
    {
        let drained = self.queue.close_and_drain();
        let n = self.workers.len();
        let mut i: usize = 0;
        while i < n
            invariant
                i <= n,
                n == self.workers().len(),
                self.queue().wf(),
                self.queue().is_closed(),
                self.queue().pending_jobs().len() == 0,
                self.queue().accepted() == old(self).accepted(),
                self.queue().delivered() == old(self).delivered() + old(self).pending(),
                self.queue().delivered() == self.queue().accepted(),
                drained@ == old(self).pending(),
                forall|j: int|
                    0 <= j < n ==> (#[trigger] self.workers()[j]).wf() && self.workers()[j].ordinal()
                        == j && !self.workers()[j].is_busy(),
                forall|j: int| 0 <= j < i ==> (#[trigger] self.workers()[j]).is_stopped(),
            decreases n - i,
        {
            let mut w = self.workers[i];
            if w.live() {
                let r = w.poll(&mut self.queue);
                proof {
                    assert(r is Stop);
                }
                self.workers[i] = w;
            }
            i += 1;
        }
        drained
    }

    /// The fixed number of workers.
    pub fn size(&self) -> (n: usize)
        ensures
            n == self.worker_count(),
    {
        self.workers.len()
    }

    /// Whether shutdown has been initiated.
    pub fn shut_down(&self) -> (b: bool)
        ensures
            b == self.is_shut_down(),
    {
        self.queue.closed_now()
    }

    /// The lifecycle state of worker `i`, or `None` for an out-of-range
    /// ordinal.
    pub fn worker_status(&self, i: usize) -> (s: Option<WorkerState>)
        ensures
            i < self.worker_count() ==> s == Some(self.workers()[i as int].state()),
            i >= self.worker_count() ==> s is None,
    {
        if i < self.workers.len() {
            Some(self.workers[i].current_state())
        } else {
            None
        }
    }
}

/// Jobs leave the pool in submission order: in every reachable pool state,
/// what has been handed out to the workers so far is exactly the earliest
/// accepted jobs, in the order `execute` accepted them.
pub proof fn lemma_pool_hands_out_in_submission_order<T>(pool: ThreadPool<T>)
    requires
        pool.wf(),
    ensures
        pool.delivered() == pool.accepted().take(pool.delivered().len() as int),
        forall|i: int| 0 <= i < pool.delivered().len() ==> pool.delivered()[i] == pool.accepted()[i],
{
    lemma_fifo_delivery(pool.queue());
}

/// A job that was never accepted — as after a rejected late submission — is
/// never handed out to any worker, and so never runs.
pub proof fn lemma_unaccepted_job_never_runs<T>(pool: ThreadPool<T>, job: T)
    requires
        pool.wf(),
        !pool.accepted().contains(job),
    ensures
        !pool.delivered().contains(job),
{
    lemma_rejected_never_delivered(pool.queue(), job);
}

} // verus!
