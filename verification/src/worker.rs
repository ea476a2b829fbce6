//! The worker: one background thread of execution that repeatedly takes the
//! next job from the shared queue and runs it to completion, looping until
//! told to stop.
//!
//! The worker's loop is modelled as a state machine.  `poll` is one turn of
//! the loop: it asks the queue for work and either begins a job (`Run`),
//! blocks (`Wait`), or terminates (`Stop`).  `finish` ends the job the worker
//! is busy with — successfully or not — and returns the worker to `Idle`.
//! Ghost counters of jobs begun and jobs ended let the contracts state that a
//! worker never has more than one job in execution at a time.

use vstd::prelude::*;

use crate::queue::DequeueStep;
use crate::queue::WorkQueue;

verus! {

/// The lifecycle of a worker's thread.  `Stopped` is terminal: it is entered
/// only when the queue is closed and drained, and never left.
#[derive(Clone, Copy, Debug, PartialEq, Eq, Structural)]
pub enum WorkerState {
    /// The thread is live and between jobs.
    Idle,
    /// The thread is live and executing exactly one job.
    Busy,
    /// The thread has observed shutdown and terminated.
    Stopped,
}

/// What one turn of the worker loop tells the surrounding thread to do.
pub enum WorkerAction<T> {
    /// Execute this job to completion, then report back through `finish`.
    Run(T),
    /// No work yet: block until a producer or the shutdown path wakes you,
    /// then poll again.
    Wait,
    /// Shutdown is complete for this worker: exit the loop.
    Stop,
}

/// One worker, identified by an ordinal fixed at construction (diagnostic
/// only, never used for routing), owning exactly one thread of execution.
#[derive(Clone, Copy)]
pub struct Worker {
    id: usize,
    state: WorkerState,
    begun: Ghost<nat>,
    ended: Ghost<nat>,
    failed: Ghost<nat>,
}

impl Worker {
    /// The worker's ordinal, fixed at construction.
    pub closed spec fn ordinal(self) -> usize {
        self.id
    }

    /// The worker's lifecycle state.
    pub closed spec fn state(self) -> WorkerState {
        self.state
    }

    /// How many jobs this worker has begun executing.
    pub closed spec fn jobs_begun(self) -> nat {
        self.begun@
    }

    /// How many jobs this worker has finished executing.
    pub closed spec fn jobs_ended(self) -> nat {
        self.ended@
    }

    /// How many of the finished jobs raised a failure while running.
    pub closed spec fn jobs_failed(self) -> nat {
        self.failed@
    }

    pub open spec fn is_idle(self) -> bool {
        self.state() == WorkerState::Idle
    }

    pub open spec fn is_busy(self) -> bool {
        self.state() == WorkerState::Busy
    }

    pub open spec fn is_stopped(self) -> bool {
        self.state() == WorkerState::Stopped
    }

    /// A live worker's thread has not terminated.
    pub open spec fn is_live(self) -> bool {
        !self.is_stopped()
    }

    /// Worker invariant: jobs end only after they begin, at most one job is
    /// ever unfinished, the worker is `Busy` exactly while that one job runs,
    /// and a stopped worker has finished everything it began.
    pub open spec fn wf(self) -> bool {
        &&& self.jobs_ended() <= self.jobs_begun()
        &&& self.jobs_begun() <= self.jobs_ended() + 1
        &&& (self.is_busy() <==> self.jobs_begun() == self.jobs_ended() + 1)
        &&& (self.is_stopped() ==> self.jobs_begun() == self.jobs_ended())
        &&& self.jobs_failed() <= self.jobs_ended()
    }

    /// Creates a live, idle worker with the given ordinal.
    pub fn new(id: usize) -> (w: Worker)
        ensures
            w.wf(),
            w.ordinal() == id,
            w.is_idle(),
            w.jobs_begun() == 0,
            w.jobs_ended() == 0,
            w.jobs_failed() == 0,
    {
        Worker { id, state: WorkerState::Idle, begun: Ghost(0), ended: Ghost(0), failed: Ghost(0) }
    }

    /// Whether the worker's thread is still live (not yet terminated).
    pub fn live(&self) -> (b: bool)
        ensures
            b == self.is_live(),
    {
        !matches!(self.state, WorkerState::Stopped)
    }

    /// The worker's ordinal.
    pub fn id(&self) -> (id: usize)
        ensures
            id == self.ordinal(),
    {
        self.id
    }

    /// The worker's current lifecycle state.
    pub fn current_state(&self) -> (s: WorkerState)
        ensures
            s == self.state(),
    {
        self.state
    }

    /// One turn of the worker loop, taken only between jobs.  If the queue
    /// yields a job, the worker becomes busy with it and the surrounding
    /// thread must run it; if the queue is open and empty the worker is told
    /// to block; if the queue is closed and drained the worker stops, and its
    /// thread exits.
    pub fn poll<T>(&mut self, queue: &mut WorkQueue<T>) -> (r: WorkerAction<T>)
        requires
            old(self).wf(),
            old(self).is_idle(),
            old(queue).wf(),
        ensures
            final(self).wf(),
            final(queue).wf(),
            final(self).ordinal() == old(self).ordinal(),
            final(self).jobs_ended() == old(self).jobs_ended(),
            final(self).jobs_failed() == old(self).jobs_failed(),
            final(queue).is_closed() == old(queue).is_closed(),
            final(queue).accepted() == old(queue).accepted(),
            old(queue).pending_jobs().len() > 0 ==> {
                &&& r == WorkerAction::Run(old(queue).pending_jobs()[0])
                &&& final(self).is_busy()
                &&& final(self).jobs_begun() == old(self).jobs_begun() + 1
                &&& final(queue).pending_jobs() == old(queue).pending_jobs().drop_first()
                &&& final(queue).delivered() == old(queue).delivered().push(
                    old(queue).pending_jobs()[0],
                )
            },
            old(queue).pending_jobs().len() == 0 && !old(queue).is_closed() ==> r
                == WorkerAction::<T>::Wait && *final(self) == *old(self) && *final(queue) == *old(
                queue,
            ),
            old(queue).pending_jobs().len() == 0 && old(queue).is_closed() ==> r
                == WorkerAction::<T>::Stop && final(self).is_stopped() && final(self).jobs_begun()
                == old(self).jobs_begun() && *final(queue) == *old(queue),
    {
        match queue.dequeue_step() {
            DequeueStep::Job(job) => {
                self.state = WorkerState::Busy;
                self.begun = Ghost(self.begun@ + 1);
                WorkerAction::Run(job)
            },
            DequeueStep::Wait => WorkerAction::Wait,
            DequeueStep::Stop => {
                self.state = WorkerState::Stopped;
                WorkerAction::Stop
            },
        }
    }

    /// Ends the one job the worker is busy with.  A failure raised by the
    /// job's body is the job's own concern: it is counted, and whether or not
    /// the job succeeded, the worker returns to `Idle` and its loop continues
    /// — one failing job never terminates its worker.
    pub fn finish(&mut self, succeeded: bool)
        requires
            old(self).wf(),
            old(self).is_busy(),
        ensures
            final(self).wf(),
            final(self).is_idle(),
            final(self).ordinal() == old(self).ordinal(),
            final(self).jobs_begun() == old(self).jobs_begun(),
            final(self).jobs_ended() == old(self).jobs_ended() + 1,
            final(self).jobs_failed() == old(self).jobs_failed() + (
            if succeeded {
                0nat
            } else {
                1nat
            }),
    {
        if !succeeded {
            self.failed = Ghost(self.failed@ + 1);
        }
        self.state = WorkerState::Idle;
        self.ended = Ghost(self.ended@ + 1);
    }
}

/// Mutual exclusion on a worker's thread: in every reachable worker state at
/// most one job is in execution, so no two jobs ever run concurrently on the
/// same worker.  While the worker is busy exactly one begun job is
/// unfinished; otherwise there is none.
pub proof fn lemma_one_job_at_a_time(w: Worker)
    requires
        w.wf(),
    ensures
        w.jobs_begun() - w.jobs_ended() <= 1,
        w.is_busy() ==> w.jobs_begun() - w.jobs_ended() == 1,
        !w.is_busy() ==> w.jobs_begun() == w.jobs_ended(),
{
}

} // verus!
