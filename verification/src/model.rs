//! Commands: a task identifier, a lifecycle operation and the work to run.
use crate::period::millis_period;
use std::future::Future;
use std::time::Duration;
use vstd::prelude::*;

verus! {

/// The lifecycle operation that a command asks for.
#[derive(Clone, Copy, Debug, PartialEq, Eq, Structural)]
pub enum Operation {
    Create,
    Update,
    Delete,
}

/// A command for the asynchronous substrate. `W` is the future to drive.
///
/// `Create` and `Update` carry the work; `Delete` needs only the identifier
/// and carries none. A command without work never starts anything.
pub struct AsyncTask<W> {
    pub id: usize,
    pub func: Option<W>,
    pub op: Operation,
}

impl<W> AsyncTask<W> {
    /// A command that is allowed on the channel: it carries work exactly
    /// when it is not a `Delete`.
    pub open spec fn well_formed(self) -> bool {
        (self.op == Operation::Delete) <==> self.func is None
    }

    /// Asks the scheduler to start `func` under `id`.
    pub fn new(id: usize, func: W) -> (task: Self) where W: Future<Output = ()> + Send + 'static
        ensures
            task == (AsyncTask { id, func: Some(func), op: Operation::Create }),
            task.well_formed(),
    {
        AsyncTask { id, func: Some(func), op: Operation::Create }
    }

    /// Asks the scheduler to replace what runs under `id` by `func`.
    pub fn update(id: usize, func: W) -> (task: Self) where W: Future<Output = ()> + Send + 'static
        ensures
            task == (AsyncTask { id, func: Some(func), op: Operation::Update }),
            task.well_formed(),
    {
        AsyncTask { id, func: Some(func), op: Operation::Update }
    }

    /// Asks the scheduler to cancel what runs under `id`.
    pub fn stop(id: usize) -> (task: Self)
        ensures
            task == (AsyncTask::<W> { id, func: None, op: Operation::Delete }),
            task.well_formed(),
    {
        AsyncTask { id, func: None, op: Operation::Delete }
    }
}

/// A command for the synchronous substrate. `W` is the callable to invoke
/// once per period.
///
/// `Create` and `Update` carry the work and its period; `Delete` needs only
/// the identifier: it carries no work and the zero period.
pub struct SyncTask<W> {
    pub id: usize,
    pub frequency: Duration,
    pub func: Option<W>,
    pub op: Operation,
}

impl<W> SyncTask<W> {
    /// A command that is allowed on the channel: it carries work exactly
    /// when it is not a `Delete`.
    pub open spec fn well_formed(self) -> bool {
        (self.op == Operation::Delete) <==> self.func is None
    }

    /// Asks the scheduler to invoke `func` every `frequency` under `id`.
    pub fn new(id: usize, frequency: Duration, func: W) -> (task: Self) where
        W: Fn() + Send + Sync + 'static,

        ensures
            task == (SyncTask { id, frequency, func: Some(func), op: Operation::Create }),
            task.well_formed(),
    {
        SyncTask { id, frequency, func: Some(func), op: Operation::Create }
    }

    /// Asks the scheduler to replace what runs under `id` by `func`, invoked
    /// every `frequency`.
    pub fn update(id: usize, frequency: Duration, func: W) -> (task: Self) where
        W: Fn() + Send + Sync + 'static,

        ensures
            task == (SyncTask { id, frequency, func: Some(func), op: Operation::Update }),
            task.well_formed(),
    {
        SyncTask { id, frequency, func: Some(func), op: Operation::Update }
    }

    /// Asks the scheduler to stop what runs under `id`.
    pub fn stop(id: usize) -> (task: Self)
        ensures
            task == (SyncTask::<W> {
                id,
                frequency: millis_period(0),
                func: None,
                op: Operation::Delete,
            }),
            task.well_formed(),
    {
        SyncTask { id, frequency: Duration::from_millis(0), func: None, op: Operation::Delete }
    }
}

} // verus!
