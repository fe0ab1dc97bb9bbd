//! A minimal cooperative task executor: a FIFO scheduler queue, tasks that
//! own one suspendable computation each, wake handles that re-enqueue a task,
//! and a timer that suspends without blocking the executor.

pub mod computation;
pub mod error;
pub mod executor;
pub mod feed;
pub mod handle;
pub mod laws;
pub mod model;
pub mod queue;
pub mod record;
pub mod sizing;
pub mod timer;
