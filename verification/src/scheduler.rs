//! The dispatcher: the receiving end of the command channel, and one turn of
//! the control loop for each substrate.
use crate::async_scheduler::{carried_out, AsyncScheduler};
use crate::model::{AsyncTask, SyncTask};
use crate::thread_scheduler::{effects_of, runners_after, Effect, ThreadScheduler};
use std::future::Future;
use std::sync::mpsc::Receiver;
use tokio::runtime::Runtime;
use vstd::prelude::*;

verus! {

/// `std::sync::mpsc::Receiver`, the receiving end of a channel.
#[verifier::external_type_specification]
#[verifier::external_body]
#[verifier::reject_recursive_types(T)]
pub struct ExReceiver<T>(Receiver<T>);

/// Waits for the next value on the channel, with
/// `std::sync::mpsc::Receiver::recv`, which blocks for as long as a sender
/// lives and the channel is empty. `None` when every sender is gone and the
/// channel is empty. What arrives is up to the senders: nothing is claimed
/// of it.
#[verifier::external_body]
fn receive<T>(receiver: &Receiver<T>) -> (task: Option<T>) {
    receiver.recv().ok()
}

/// The consumer of a command channel. Exactly one control thread owns it.
#[verifier::reject_recursive_types(T)]
pub struct Scheduler<T> {
    receiver: Receiver<T>,
}

impl<T> Scheduler<T> {
    /// The channel end that the commands arrive on.
    pub closed spec fn receiver(&self) -> Receiver<T> {
        self.receiver
    }

    /// A dispatcher that serves the commands sent to `receiver`.
    pub fn new(receiver: Receiver<T>) -> (scheduler: Self)
        ensures
            scheduler.receiver() == receiver,
    {
        Scheduler { receiver }
    }
}

impl<W> Scheduler<SyncTask<W>> {
    /// One turn of the control loop on the synchronous substrate: waits for
    /// a command and applies it to completion. Returns the effects that are
    /// due for it, or `None`, with the substrate untouched, when the channel
    /// is closed.
    pub fn step(&self, substrate: &mut ThreadScheduler) -> (effects: Option<Vec<Effect<W>>>)
        ensures
            match effects {
                Some(effects) => exists|task: SyncTask<W>|
                    final(substrate)@ == #[trigger] runners_after(old(substrate)@, task)
                        && effects@ == effects_of(old(substrate)@, task),
                None => final(substrate)@ == old(substrate)@,
            },
    {
        let received = receive(&self.receiver);
        Self::apply(received, substrate)
    }
}

impl<W> Scheduler<AsyncTask<W>> where W: Future<Output = ()> + Send + 'static {
    /// One turn of the control loop on the asynchronous substrate: waits
    /// for a command and applies it to completion on `runtime`. Returns
    /// `false`, with the substrate untouched, when the channel is closed.
    pub fn step(&self, substrate: &mut AsyncScheduler, runtime: &Runtime) -> (served: bool)
        ensures
            final(substrate).worker_threads() == old(substrate).worker_threads(),
            old(substrate).well_formed() ==> final(substrate).well_formed(),
            served ==> (exists|task: AsyncTask<W>| #[trigger]
                carried_out(
                    old(substrate).executions(),
                    old(substrate).started(),
                    task,
                    final(substrate).executions(),
                )),
            !served ==> final(substrate).executions() == old(substrate).executions(),
            !served ==> final(substrate).started() == old(substrate).started(),
    {
        let received = receive(&self.receiver);
        Self::apply(received, substrate, runtime)
    }
}

impl<W> Scheduler<SyncTask<W>> {
    /// What a turn of the control loop does with what the channel gave it:
    /// a command is applied to completion and its effects are returned; the
    /// end of the channel leaves the substrate untouched and gives `None`.
    pub fn apply(received: Option<SyncTask<W>>, substrate: &mut ThreadScheduler) -> (effects:
        Option<Vec<Effect<W>>>)
        ensures
            match received {
                Some(task) => {
                    &&& final(substrate)@ == runners_after(old(substrate)@, task)
                    &&& effects is Some
                    &&& effects.unwrap()@ == effects_of(old(substrate)@, task)
                },
                None => final(substrate)@ == old(substrate)@ && effects is None,
            },
    {
        match received {
            Some(task) => {
                let effects = substrate.handle(task);
                Some(effects)
            },
            None => None,
        }
    }
}

impl<W> Scheduler<AsyncTask<W>> where W: Future<Output = ()> + Send + 'static {
    /// What a turn of the control loop does with what the channel gave it:
    /// a command is applied to completion on `runtime`, which gives `true`;
    /// the end of the channel leaves the substrate untouched and gives
    /// `false`.
    pub fn apply(
        received: Option<AsyncTask<W>>,
        substrate: &mut AsyncScheduler,
        runtime: &Runtime,
    ) -> (served: bool)
        ensures
            served == (received is Some),
            final(substrate).worker_threads() == old(substrate).worker_threads(),
            old(substrate).well_formed() ==> final(substrate).well_formed(),
            match received {
                Some(task) => carried_out(
                    old(substrate).executions(),
                    old(substrate).started(),
                    task,
                    final(substrate).executions(),
                ),
                None => final(substrate).executions() == old(substrate).executions()
                    && final(substrate).started() == old(substrate).started(),
            },
    {
        match received {
            Some(task) => {
                let _ = substrate.handle(runtime, task);
                true
            },
            None => false,
        }
    }
}

} // verus!
