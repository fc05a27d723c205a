//! The asynchronous substrate: one spawned future per live task, on a shared
//! runtime, each kept by its handle under the task's identifier.
//!
//! Every command first cancels what is scheduled under its identifier, and
//! a command that carries work to start then spawns it. So a `Create` for a
//! task that is already scheduled replaces it as an `Update` does, an
//! `Update` for a task that is not scheduled starts it as a `Create` does,
//! and a `Delete` for a task that is not scheduled changes nothing.
use crate::cancellation::{cancel, Aborted};
use crate::model::{AsyncTask, Operation};
use std::collections::HashMap;
use std::future::Future;
use tokio::runtime::Runtime;
use tokio::task::JoinHandle;
use vstd::prelude::*;

verus! {

/// `tokio::task::JoinHandle`, the handle of a spawned task. It is kept and
/// given up, never looked into.
#[verifier::external_type_specification]
#[verifier::external_body]
#[verifier::reject_recursive_types(T)]
pub struct ExJoinHandle<T>(JoinHandle<T>);

/// `tokio::task::JoinError`, which the type of a handle mentions. No value
/// of it occurs here.
#[verifier::external_type_specification]
#[verifier::external_body]
pub struct ExJoinError(tokio::task::JoinError);

/// `tokio::runtime::Runtime`, the runtime that drives the spawned tasks.
#[verifier::external_type_specification]
#[verifier::external_body]
pub struct ExRuntime(Runtime);

/// Builds a multi-threaded runtime with all drivers enabled, through
/// `tokio::runtime::Builder`: `new_multi_thread`, `enable_all`,
/// `worker_threads`, `thread_name`, `build`. The builder refuses a count of
/// zero by a panic, and the worker threads are spawned under the given
/// name, which std refuses by a panic where it holds a NUL character: both
/// are left out. `None` when the drivers of the runtime cannot be set up.
/// Where the operating system has no thread left for a worker, tokio
/// panics. Nothing is claimed of the result.
#[verifier::external_body]
fn build_runtime(worker_threads: usize, thread_name: &str) -> (runtime: Option<Runtime>)
    requires
        worker_threads > 0,
        forall|i: int| 0 <= i < thread_name@.len() ==> thread_name@[i] != '\0',
{
    tokio::runtime::Builder::new_multi_thread()
        .enable_all()
        .worker_threads(worker_threads)
        .thread_name(thread_name)
        .build()
        .ok()
}

/// Hands `work` to `tokio::runtime::Runtime::spawn` and returns the handle
/// of the spawned task. Nothing is claimed of the handle.
#[verifier::external_body]
fn spawn_on<W>(runtime: &Runtime, work: W) -> (handle: JoinHandle<()>) where
    W: Future<Output = ()> + Send + 'static,
 {
    runtime.spawn(work)
}

/// The command spawns its work: a `Create` or an `Update` that carries work.
pub open spec fn spawns<W>(task: AsyncTask<W>) -> bool {
    task.op != Operation::Delete && task.func is Some
}

/// The identifiers that are scheduled once `task` has been handled.
pub open spec fn scheduled_after<W>(scheduled: Set<usize>, task: AsyncTask<W>) -> Set<usize> {
    if spawns(task) {
        scheduled.insert(task.id)
    } else {
        scheduled.remove(task.id)
    }
}

/// The identifiers that are scheduled once every command of `tasks` has
/// been handled, the first command first.
pub open spec fn scheduled_after_all<W>(scheduled: Set<usize>, tasks: Seq<AsyncTask<W>>) -> Set<
    usize,
>
    decreases tasks.len(),
{
    if tasks.len() == 0 {
        scheduled
    } else {
        scheduled_after(scheduled_after_all(scheduled, tasks.drop_last()), tasks.last())
    }
}

/// One scheduled execution: the handle of the spawned future, and the
/// number of executions that the scheduler had started before this one. No
/// two executions of one scheduler have the same serial.
pub struct Scheduled {
    pub handle: JoinHandle<()>,
    pub serial: Ghost<nat>,
}

/// One thing that the scheduler did for a command.
pub enum AsyncEffect {
    /// The execution that was scheduled under `id` was told to stop;
    /// `aborted` holds its handle.
    Cancelled { id: usize, aborted: Aborted },
    /// The work of the command was spawned and is scheduled under `id`.
    Spawned { id: usize },
}

/// `effect` records that cancellation was signalled on `handle`, which was
/// scheduled under `id`.
pub open spec fn cancelled_as(effect: AsyncEffect, id: usize, handle: JoinHandle<()>) -> bool {
    effect matches AsyncEffect::Cancelled { id: of, aborted } && of == id && aborted.handle()
        == handle
}

/// What handling `task` does to a scheduler with the executions `before`
/// that has started `started` executions so far: it leaves the executions
/// `after` and has done `done`, in that order.
///
/// What was scheduled under the command's identifier is cancelled first,
/// and its handle is the one that the record holds. Then the work of a
/// `Create` or `Update` is spawned, as the execution with the serial
/// `started`. Every other execution stays.
pub open spec fn handled<W>(
    before: Map<usize, Scheduled>,
    started: nat,
    task: AsyncTask<W>,
    after: Map<usize, Scheduled>,
    done: Seq<AsyncEffect>,
) -> bool {
    let cancels = before.contains_key(task.id);
    let first = if cancels {
        1int
    } else {
        0int
    };
    &&& after.dom() == scheduled_after(before.dom(), task)
    &&& forall|other: usize|
        other != task.id && before.contains_key(other) ==> after[other] == before[other]
    &&& done.len() == first + if spawns(task) {
        1int
    } else {
        0int
    }
    &&& cancels ==> cancelled_as(done[0], task.id, before[task.id].handle)
    &&& spawns(task) ==> done[first] == (AsyncEffect::Spawned { id: task.id })
        && after[task.id].serial@ == started
}

/// `task` was handled: the scheduler went from `before` to `after`, and
/// what it did for the command is on some record, as `handled` says.
pub open spec fn carried_out<W>(
    before: Map<usize, Scheduled>,
    started: nat,
    task: AsyncTask<W>,
    after: Map<usize, Scheduled>,
) -> bool {
    exists|done: Seq<AsyncEffect>| #[trigger] handled(before, started, task, after, done)
}

/// At the turn of command `turn`, the scheduler went from the state at
/// that place of `trail` to the next one by handling the command.
pub open spec fn took_turn<W>(
    trail: Seq<(Map<usize, Scheduled>, nat)>,
    tasks: Seq<AsyncTask<W>>,
    turn: int,
) -> bool {
    &&& carried_out(trail[turn].0, trail[turn].1, tasks[turn], trail[turn + 1].0)
    &&& trail[turn + 1].1 == trail[turn].1 + if spawns(tasks[turn]) {
        1nat
    } else {
        0nat
    }
}

/// `trail` holds the states that the scheduler went through while it
/// handled `tasks`, the first command first, each to completion before the
/// next: from `before`, with `started` executions started so far, to
/// `after`, with `finally`.
pub open spec fn went_through<W>(
    trail: Seq<(Map<usize, Scheduled>, nat)>,
    before: Map<usize, Scheduled>,
    started: nat,
    tasks: Seq<AsyncTask<W>>,
    after: Map<usize, Scheduled>,
    finally: nat,
) -> bool {
    &&& trail.len() == tasks.len() + 1
    &&& trail[0] == (before, started)
    &&& trail[tasks.len() as int] == (after, finally)
    &&& forall|turn: int| 0 <= turn < tasks.len() ==> #[trigger] took_turn(trail, tasks, turn)
}

/// Every command of `tasks` was handled, the first command first, each to
/// completion before the next, as `handled` says of one command.
pub open spec fn carried_out_all<W>(
    before: Map<usize, Scheduled>,
    started: nat,
    tasks: Seq<AsyncTask<W>>,
    after: Map<usize, Scheduled>,
    finally: nat,
) -> bool {
    exists|trail: Seq<(Map<usize, Scheduled>, nat)>| #[trigger]
        went_through(trail, before, started, tasks, after, finally)
}

/// The scheduler of the asynchronous substrate.
pub struct AsyncScheduler {
    tasks: HashMap<usize, Scheduled>,
    num_runtime_threads: usize,
    started: Ghost<nat>,
}

impl AsyncScheduler {
    /// The scheduled executions, by the task's identifier.
    pub closed spec fn executions(&self) -> Map<usize, Scheduled> {
        self.tasks@
    }

    /// The identifiers of the scheduled tasks.
    pub open spec fn scheduled(&self) -> Set<usize> {
        self.executions().dom()
    }

    /// The number of executions that this scheduler has started so far.
    pub closed spec fn started(&self) -> nat {
        self.started@
    }

    /// The number of worker threads that the runtime is built with.
    pub closed spec fn worker_threads(&self) -> usize {
        self.num_runtime_threads
    }

    /// Every constructor yields, and every method keeps, a scheduler whose
    /// runtime has at least one worker thread and whose executions were
    /// all started by it.
    pub open spec fn well_formed(&self) -> bool {
        &&& self.worker_threads() > 0
        &&& forall|id: usize|
            self.executions().contains_key(id) ==> (#[trigger] self.executions()[id]).serial@
                < self.started()
    }

    /// A scheduler without tasks, for a runtime with one worker thread.
    pub fn new() -> (scheduler: Self)
        ensures
            scheduler.executions() == Map::<usize, Scheduled>::empty(),
            scheduler.worker_threads() == 1,
            scheduler.started() == 0,
            scheduler.well_formed(),
    {
        AsyncScheduler { tasks: HashMap::new(), num_runtime_threads: 1, started: Ghost(0) }
    }

    /// A scheduler without tasks, for a runtime with `worker_threads`
    /// worker threads. A runtime needs at least one: zero gives `None`.
    pub fn with_worker_threads(worker_threads: usize) -> (scheduler: Option<Self>)
        ensures
            scheduler is Some <==> worker_threads > 0,
            scheduler is Some ==> {
                &&& scheduler.unwrap().executions() == Map::<usize, Scheduled>::empty()
                &&& scheduler.unwrap().worker_threads() == worker_threads
                &&& scheduler.unwrap().started() == 0
                &&& scheduler.unwrap().well_formed()
            },
    {
        if worker_threads == 0 {
            None
        } else {
            Some(
                AsyncScheduler {
                    tasks: HashMap::new(),
                    num_runtime_threads: worker_threads,
                    started: Ghost(0),
                },
            )
        }
    }

    /// Builds the runtime that drives the tasks, with the scheduler's
    /// number of worker threads, named `scheduler-runtime`. `None` when the
    /// drivers of the runtime cannot be set up; where the operating system
    /// has no thread left for a worker, the builder panics.
    pub fn runtime(&self) -> (runtime: Option<Runtime>)
        requires
            self.well_formed(),
    {
        proof {
            reveal_strlit("scheduler-runtime");
        }
        build_runtime(self.num_runtime_threads, "scheduler-runtime")
    }

    /// The number of scheduled tasks.
    pub fn len(&self) -> (len: usize)
        ensures
            len == self.scheduled().len(),
    {
        broadcast use vstd::std_specs::hash::group_hash_axioms;

        self.tasks.len()
    }

    /// Whether a task is scheduled under `id`.
    pub fn is_scheduled(&self, id: usize) -> (found: bool)
        ensures
            found == self.scheduled().contains(id),
    {
        broadcast use vstd::std_specs::hash::group_hash_axioms;

        self.tasks.contains_key(&id)
    }

    /// Spawns `work` on `runtime` and keeps its handle under `id`, as the
    /// execution with the next serial.
    fn start<W>(&mut self, runtime: &Runtime, id: usize, work: W) where
        W: Future<Output = ()> + Send + 'static,

        requires
            !old(self).scheduled().contains(id),
        ensures
            final(self).scheduled() == old(self).scheduled().insert(id),
            final(self).executions()[id].serial@ == old(self).started(),
            final(self).started() == old(self).started() + 1,
            final(self).worker_threads() == old(self).worker_threads(),
            forall|other: usize|
                other != id && old(self).scheduled().contains(other) ==> final(self).executions()[other]
                    == old(self).executions()[other],
    {
        broadcast use vstd::std_specs::hash::group_hash_axioms;

        let handle = spawn_on(runtime, work);
        let serial = Ghost(self.started@);
        self.tasks.insert(id, Scheduled { handle, serial });
        self.started = Ghost(self.started@ + 1);
    }

    /// Cancels what is scheduled under `id`, forgets it, and returns its
    /// aborted handle. An identifier that is not scheduled changes nothing
    /// and gives `None`.
    fn stop(&mut self, id: usize) -> (aborted: Option<Aborted>)
        ensures
            final(self).executions() == old(self).executions().remove(id),
            final(self).started() == old(self).started(),
            final(self).worker_threads() == old(self).worker_threads(),
            match aborted {
                Some(aborted) => old(self).scheduled().contains(id) && aborted.handle() == old(
                    self,
                ).executions()[id].handle,
                None => !old(self).scheduled().contains(id),
            },
    {
        broadcast use vstd::std_specs::hash::group_hash_axioms;

        match self.tasks.remove(&id) {
            Some(scheduled) => Some(cancel(scheduled.handle)),
            None => None,
        }
    }

    /// Applies one command to completion and returns what was done for it,
    /// in order: first cancels what is scheduled under the command's
    /// identifier, then spawns the work of a `Create` or `Update` on
    /// `runtime`. Every other execution stays.
    pub fn handle<W>(&mut self, runtime: &Runtime, task: AsyncTask<W>) -> (done: Vec<
        AsyncEffect,
    >) where W: Future<Output = ()> + Send + 'static
        ensures
            handled(
                old(self).executions(),
                old(self).started(),
                task,
                final(self).executions(),
                done@,
            ),
            final(self).started() == old(self).started() + if spawns(task) {
                1nat
            } else {
                0nat
            },
            final(self).worker_threads() == old(self).worker_threads(),
            old(self).well_formed() ==> final(self).well_formed(),
    {
        let mut done: Vec<AsyncEffect> = Vec::new();
        let AsyncTask { id, func, op } = task;
        if let Some(aborted) = self.stop(id) {
            done.push(AsyncEffect::Cancelled { id, aborted });
        }
        match op {
            Operation::Delete => {},
            Operation::Create | Operation::Update => {
                if let Some(work) = func {
                    self.start(runtime, id, work);
                    done.push(AsyncEffect::Spawned { id });
                }
            },
        }
        assert(self.scheduled() =~= scheduled_after(old(self).scheduled(), task));
        done
    }

    /// Applies the commands in the order given, each to completion before
    /// the next, as `handle` applies one.
    pub fn serve<W>(&mut self, runtime: &Runtime, tasks: Vec<AsyncTask<W>>) where
        W: Future<Output = ()> + Send + 'static,

        ensures
            carried_out_all(
                old(self).executions(),
                old(self).started(),
                tasks@,
                final(self).executions(),
                final(self).started(),
            ),
            final(self).scheduled() == scheduled_after_all(old(self).scheduled(), tasks@),
            final(self).worker_threads() == old(self).worker_threads(),
            old(self).well_formed() ==> final(self).well_formed(),
    {
        let ghost all = tasks@;
        let ghost before = self.executions();
        let ghost started = self.started();
        let ghost threads = self.worker_threads();
        let ghost valid = self.well_formed();
        let ghost mut trail = seq![(before, started)];
        for task in it: tasks
            invariant
                it.seq() == all,
                self.worker_threads() == threads,
                valid ==> self.well_formed(),
                self.scheduled() == scheduled_after_all(before.dom(), all.take(it.index() as int)),
                went_through(
                    trail,
                    before,
                    started,
                    all.take(it.index() as int),
                    self.executions(),
                    self.started(),
                ),
        {
            let ghost between = self.executions();
            let ghost so_far = self.started();
            let ghost walked = trail;
            let done = self.handle(runtime, task);
            proof {
                let turn = it.index() as int;
                let prefix = all.take(turn + 1);
                assert(prefix.drop_last() =~= all.take(turn));
                assert(prefix.last() == task);
                assert(handled(between, so_far, task, self.executions(), done@));
                trail = walked.push((self.executions(), self.started()));
                assert forall|at: int| 0 <= at < prefix.len() implies #[trigger] took_turn(
                    trail,
                    prefix,
                    at,
                ) by {
                    if at < turn {
                        assert(took_turn(walked, all.take(turn), at));
                        assert(trail[at] == walked[at]);
                        assert(trail[at + 1] == walked[at + 1]);
                        assert(prefix[at] == all.take(turn)[at]);
                    } else {
                        assert(trail[at] == (between, so_far));
                        assert(prefix[at] == task);
                    }
                }
            }
        }
        assert(all.take(all.len() as int) =~= all);
    }
}

} // verus!
