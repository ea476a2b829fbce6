//! A fixed-size worker pool: callers submit fire-and-forget jobs and a bounded
//! set of workers executes them, decoupling submission from execution.
//!
//! The crate models the pool's concurrency protocol as verified sequential
//! state machines: the shared FIFO work queue with its open/closed lifecycle,
//! the worker loop (take a job, run it, observe shutdown), and the pool's
//! construction, submission and shutdown rules.  A runtime embedding wraps the
//! queue in a lock, spawns one thread per worker, and drives these verified
//! transitions; every scheduling and delivery decision is made by them.

pub mod pool;
pub mod queue;
pub mod worker;

pub use pool::PoolError;
pub use pool::ThreadPool;
pub use queue::DequeueStep;
pub use queue::QueueClosed;
pub use queue::WorkQueue;
pub use worker::Worker;
pub use worker::WorkerAction;
pub use worker::WorkerState;
