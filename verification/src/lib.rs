//! A fixed-size worker thread pool.
//!
//! The pool owns a set of long-lived worker threads fed through one shared
//! first-in-first-out channel. Callers hand it one-shot units of work; each
//! unit is dequeued and run by exactly one worker. Teardown is an orderly
//! protocol: one stop message per worker is enqueued, then every worker
//! thread is joined exactly once.

mod channel;
mod pool;

pub use pool::Message;
pub use pool::WorkerAction;
pub use pool::decide;
pub use pool::SharedReceiver;
pub use pool::ThreadPool;
pub use pool::WorkItem;
pub use pool::lemma_join_at_most_once;
pub use pool::worker_step;
