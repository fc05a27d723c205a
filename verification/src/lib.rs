//! A scheduler for recurring tasks.
//!
//! Producers describe work as commands (create, update, delete) that carry a
//! task identifier. A scheduler applies the commands one at a time, in the
//! order in which they were sent, and keeps one execution per live task. Two
//! substrates are offered: futures driven by a shared runtime, and blocking
//! callables, each paced by a thread of its own.
use vstd::prelude::*;

pub mod async_laws;
pub mod async_scheduler;
pub mod cancellation;
pub mod feed;
pub mod fetcher;
pub mod model;
pub mod period;
pub mod scheduler;
pub mod scheduler_interface;
pub mod thread_laws;
pub mod thread_scheduler;

pub use feed::{CreateFeed, Feed, FeedRegistry};
pub use model::{AsyncTask, Operation, SyncTask};
pub use scheduler::Scheduler;
pub use scheduler_interface::{build, SchedulerInterface, TaskSend, ToScheduler, TransportError};

verus! {

} // verus!
