//! The control adapter: turns the lifecycle of a feed into commands and
//! sends them to the scheduler.
//!
//! The adapter builds the command and hands it to the channel once. It does
//! not retry: a command that the channel refuses comes back to the caller
//! as a `TransportError` that names it.
use crate::feed::Feed;
use crate::model::{AsyncTask, Operation, SyncTask};
use crate::period::{millis_period, secs_period};
use crate::scheduler::Scheduler;
use std::future::Future;
use std::marker::PhantomData;
use std::sync::mpsc::{Receiver, SendError, Sender};
use std::time::Duration;
use vstd::prelude::*;

verus! {

/// `std::sync::mpsc::Sender`, the sending end of a channel.
#[verifier::external_type_specification]
#[verifier::external_body]
#[verifier::reject_recursive_types(T)]
pub struct ExSender<T>(Sender<T>);

/// `std::sync::mpsc::SendError`, which a refused send returns. Its one
/// field is the value that could not be sent.
#[verifier::external_type_specification]
pub struct ExSendError<T>(SendError<T>);

/// A command could not be handed to the scheduler: the channel is closed.
#[derive(Clone, Copy, Debug, PartialEq, Eq, Structural)]
pub struct TransportError {
    /// The task that the lost command was for.
    pub id: usize,
    /// The operation that the lost command asked for.
    pub op: Operation,
}

/// The sending end of a command channel.
pub trait TaskSend<T> {
    /// What this sender says of one send: `outcome` is a result that `send`
    /// can give for `task`. A sender that states nothing admits every
    /// outcome.
    open spec fn sends(&self, task: T, outcome: Result<(), SendError<T>>) -> bool {
        true
    }

    /// Hands `task` to the channel, or gives it back when the receiver is
    /// gone.
    fn send(&self, task: T) -> (outcome: Result<(), SendError<T>>)
        ensures
            self.sends(task, outcome),
    ;
}

/// Sends with `std::sync::mpsc::Sender::send`, which returns the value in
/// the error when it could not be sent. Whether the send succeeds is up to
/// the receiver: nothing is claimed of that.
#[verifier::external_body]
fn send_on<T>(sender: &Sender<T>, task: T) -> (outcome: Result<(), SendError<T>>)
    ensures
        outcome matches Err(refused) ==> refused.0 == task,
{
    sender.send(task)
}

impl<T> TaskSend<T> for Sender<T> {
    /// A refused send gives back the value that it was given.
    open spec fn sends(&self, task: T, outcome: Result<(), SendError<T>>) -> bool {
        outcome matches Err(refused) ==> refused.0 == task
    }

    fn send(&self, task: T) -> (outcome: Result<(), SendError<T>>) {
        send_on(self, task)
    }
}

/// Creates a channel with `std::sync::mpsc::channel` and returns its two
/// ends. Nothing is claimed of them.
#[verifier::external_body]
fn channel<T>() -> (ends: (Sender<T>, Receiver<T>)) {
    std::sync::mpsc::channel()
}

/// The command that starts the polling of `feed` on the synchronous
/// substrate: `work` fetches the feed once, and runs every
/// `feed.frequency` seconds.
pub fn sync_create<W>(feed: &Feed, work: W) -> (task: SyncTask<W>) where
    W: Fn() + Send + Sync + 'static,

    ensures
        task == (SyncTask {
            id: feed.id,
            frequency: secs_period(feed.frequency),
            func: Some(work),
            op: Operation::Create,
        }),
{
    SyncTask::new(feed.id, Duration::from_secs(feed.frequency), work)
}

/// The command that replaces the polling of `feed` on the synchronous
/// substrate by `work`, run every `feed.frequency` seconds.
pub fn sync_update<W>(feed: &Feed, work: W) -> (task: SyncTask<W>) where
    W: Fn() + Send + Sync + 'static,

    ensures
        task == (SyncTask {
            id: feed.id,
            frequency: secs_period(feed.frequency),
            func: Some(work),
            op: Operation::Update,
        }),
{
    SyncTask::update(feed.id, Duration::from_secs(feed.frequency), work)
}

/// The command that ends the polling of `feed` on the synchronous
/// substrate.
pub fn sync_delete<W>(feed: &Feed) -> (task: SyncTask<W>)
    ensures
        task == (SyncTask::<W> {
            id: feed.id,
            frequency: millis_period(0),
            func: None,
            op: Operation::Delete,
        }),
{
    SyncTask::stop(feed.id)
}

/// The command that starts the polling of `feed` on the asynchronous
/// substrate: `work` is the future that fetches the feed again and again.
pub fn async_create<W>(feed: &Feed, work: W) -> (task: AsyncTask<W>) where
    W: Future<Output = ()> + Send + 'static,

    ensures
        task == (AsyncTask { id: feed.id, func: Some(work), op: Operation::Create }),
{
    AsyncTask::new(feed.id, work)
}

/// The command that replaces the polling of `feed` on the asynchronous
/// substrate by `work`.
pub fn async_update<W>(feed: &Feed, work: W) -> (task: AsyncTask<W>) where
    W: Future<Output = ()> + Send + 'static,

    ensures
        task == (AsyncTask { id: feed.id, func: Some(work), op: Operation::Update }),
{
    AsyncTask::update(feed.id, work)
}

/// The command that ends the polling of `feed` on the asynchronous
/// substrate.
pub fn async_delete<W>(feed: &Feed) -> (task: AsyncTask<W>)
    ensures
        task == (AsyncTask::<W> { id: feed.id, func: None, op: Operation::Delete }),
{
    AsyncTask::stop(feed.id)
}

/// The report for the outcome of one send of the command `op` for task
/// `id`: success as it is, and a refusal as the transport error that names
/// the command.
pub open spec fn transport_report<T>(
    outcome: Result<(), SendError<T>>,
    id: usize,
    op: Operation,
) -> Result<(), TransportError> {
    match outcome {
        Ok(_) => Ok(()),
        Err(_) => Err(TransportError { id, op }),
    }
}

/// The adapter has handed `task`, the command `op` for task `id`, to
/// `sender`, and `report` is the report for what the sender gave back.
pub open spec fn sent_through<R: TaskSend<T>, T>(
    sender: R,
    task: T,
    id: usize,
    op: Operation,
    report: Result<(), TransportError>,
) -> bool {
    exists|outcome: Result<(), SendError<T>>|
        #[trigger] sender.sends(task, outcome) && report == transport_report(outcome, id, op)
}

/// What the adapter reports for the outcome of one send: success as it
/// is, and a refusal as the transport error that names the command.
pub fn transport_outcome<T>(outcome: Result<(), SendError<T>>, id: usize, op: Operation) -> (report:
    Result<(), TransportError>)
    ensures
        report == transport_report(outcome, id, op),
{
    match outcome {
        Ok(_) => Ok(()),
        Err(_) => Err(TransportError { id, op }),
    }
}

/// What producers call when a feed is created, changed or removed. `W` is
/// the work that polls a feed. The feed's work moves to another thread, so
/// it is taken by value.
pub trait ToScheduler<W> {
    /// Asks for the polling of `feed` to start.
    fn create(&self, feed: &Feed, work: W) -> (report: Result<(), TransportError>)
        ensures
            report is Err ==> report->Err_0 == (TransportError {
                id: feed.id,
                op: Operation::Create,
            }),
    ;

    /// Asks for the polling of `feed` to be replaced.
    fn update(&self, feed: &Feed, work: W) -> (report: Result<(), TransportError>)
        ensures
            report is Err ==> report->Err_0 == (TransportError {
                id: feed.id,
                op: Operation::Update,
            }),
    ;

    /// Asks for the polling of `feed` to end.
    fn delete(&self, feed: &Feed) -> (report: Result<(), TransportError>)
        ensures
            report is Err ==> report->Err_0 == (TransportError {
                id: feed.id,
                op: Operation::Delete,
            }),
    ;
}

/// The adapter over a sending end `R` of a channel of commands `T`.
#[verifier::reject_recursive_types(T)]
pub struct SchedulerInterface<R, T> {
    sender: R,
    _marker: PhantomData<T>,
}

impl<R, T> SchedulerInterface<R, T> where R: TaskSend<T> {
    /// The sending end that the commands go to.
    pub closed spec fn sender(&self) -> R {
        self.sender
    }

    /// An adapter that sends its commands through `sender`.
    pub fn new(sender: R) -> (interface: Self)
        ensures
            interface.sender() == sender,
    {
        SchedulerInterface { sender, _marker: PhantomData }
    }

    /// Sends `task`, which is the command `op` for task `id`, once, and
    /// reports the outcome.
    fn dispatch(&self, task: T, id: usize, op: Operation) -> (report: Result<(), TransportError>)
        ensures
            sent_through(self.sender(), task, id, op, report),
            report is Err ==> report->Err_0 == (TransportError { id, op }),
    {
        let outcome = self.sender.send(task);
        transport_outcome(outcome, id, op)
    }
}

impl<R, W> ToScheduler<W> for SchedulerInterface<R, SyncTask<W>> where
    R: TaskSend<SyncTask<W>>,
    W: Fn() + Send + Sync + 'static,
 {
    fn create(&self, feed: &Feed, work: W) -> (report: Result<(), TransportError>)
        ensures
            sent_through(
                self.sender(),
                SyncTask {
                    id: feed.id,
                    frequency: secs_period(feed.frequency),
                    func: Some(work),
                    op: Operation::Create,
                },
                feed.id,
                Operation::Create,
                report,
            ),
    {
        self.dispatch(sync_create(feed, work), feed.id, Operation::Create)
    }

    fn update(&self, feed: &Feed, work: W) -> (report: Result<(), TransportError>)
        ensures
            sent_through(
                self.sender(),
                SyncTask {
                    id: feed.id,
                    frequency: secs_period(feed.frequency),
                    func: Some(work),
                    op: Operation::Update,
                },
                feed.id,
                Operation::Update,
                report,
            ),
    {
        self.dispatch(sync_update(feed, work), feed.id, Operation::Update)
    }

    fn delete(&self, feed: &Feed) -> (report: Result<(), TransportError>)
        ensures
            sent_through(
                self.sender(),
                SyncTask::<W> {
                    id: feed.id,
                    frequency: millis_period(0),
                    func: None,
                    op: Operation::Delete,
                },
                feed.id,
                Operation::Delete,
                report,
            ),
    {
        self.dispatch(sync_delete(feed), feed.id, Operation::Delete)
    }
}

impl<R, W> ToScheduler<W> for SchedulerInterface<R, AsyncTask<W>> where
    R: TaskSend<AsyncTask<W>>,
    W: Future<Output = ()> + Send + 'static,
 {
    fn create(&self, feed: &Feed, work: W) -> (report: Result<(), TransportError>)
        ensures
            sent_through(
                self.sender(),
                AsyncTask { id: feed.id, func: Some(work), op: Operation::Create },
                feed.id,
                Operation::Create,
                report,
            ),
    {
        self.dispatch(async_create(feed, work), feed.id, Operation::Create)
    }

    fn update(&self, feed: &Feed, work: W) -> (report: Result<(), TransportError>)
        ensures
            sent_through(
                self.sender(),
                AsyncTask { id: feed.id, func: Some(work), op: Operation::Update },
                feed.id,
                Operation::Update,
                report,
            ),
    {
        self.dispatch(async_update(feed, work), feed.id, Operation::Update)
    }

    fn delete(&self, feed: &Feed) -> (report: Result<(), TransportError>)
        ensures
            sent_through(
                self.sender(),
                AsyncTask::<W> { id: feed.id, func: None, op: Operation::Delete },
                feed.id,
                Operation::Delete,
                report,
            ),
    {
        self.dispatch(async_delete(feed), feed.id, Operation::Delete)
    }
}

/// Opens a command channel and returns the adapter on its sending end and
/// the dispatcher on its receiving end. The caller hands the dispatcher to
/// the control thread.
pub fn build<T>() -> (ends: (SchedulerInterface<Sender<T>, T>, Scheduler<T>)) {
    let (sender, receiver) = channel();
    connect(sender, receiver)
}

/// The adapter on `sender` and the dispatcher on `receiver`: what `build`
/// makes of the two ends of the channel that it opened.
pub fn connect<T>(sender: Sender<T>, receiver: Receiver<T>) -> (ends: (
    SchedulerInterface<Sender<T>, T>,
    Scheduler<T>,
))
    ensures
        ends.0.sender() == sender,
        ends.1.receiver() == receiver,
{
    (SchedulerInterface::new(sender), Scheduler::new(receiver))
}

} // verus!
