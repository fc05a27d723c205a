//! The synchronous substrate: one runner per live task, kept in the order in
//! which the runners were started.
//!
//! The scheduler decides; it starts and joins no thread itself. Each command
//! yields the effects that the owner of the threads has to perform, in order:
//! halting the runner in a slot of the sequence (signal stop, join, discard)
//! and launching a new runner at the end of the sequence.
use crate::model::{Operation, SyncTask};
use std::time::Duration;
use vstd::prelude::*;

verus! {

/// The record of one live runner: the task it serves and its period.
pub struct TaskRunner {
    pub id: usize,
    pub frequency: Duration,
}

/// What a runner's thread does at the top of its loop.
#[derive(Clone, Copy, Debug, PartialEq, Eq, Structural)]
pub enum Turn {
    /// Invoke the callable, then sleep for the period.
    Invoke,
    /// Leave the loop: the thread ends and can be joined.
    Exit,
}

impl TaskRunner {
    /// The record of a runner for task `id` with period `frequency`.
    pub fn new(id: usize, frequency: Duration) -> (runner: Self)
        ensures
            runner == (TaskRunner { id, frequency }),
    {
        TaskRunner { id, frequency }
    }

    /// The decision between two invocations, from the stop flag as the
    /// thread reads it: once the flag is set no further invocation begins.
    pub fn turn(&self, stopping: bool) -> (turn: Turn)
        ensures
            turn == (if stopping {
                Turn::Exit
            } else {
                Turn::Invoke
            }),
    {
        if stopping {
            Turn::Exit
        } else {
            Turn::Invoke
        }
    }
}

/// One thing that the owner of the threads has to do.
pub enum Effect<W> {
    /// Stop the runner at `slot` of the sequence as it stands when this
    /// effect is reached: set its stop flag, join its thread, remove it.
    Halt { slot: usize, id: usize },
    /// Start a runner that invokes `work` every `frequency`, and append it
    /// to the sequence.
    Launch { id: usize, frequency: Duration, work: W },
}

/// Some runner in the sequence serves `id`.
pub open spec fn live(runners: Seq<TaskRunner>, id: usize) -> bool {
    exists|slot: int| 0 <= slot < runners.len() && #[trigger] runners[slot].id == id
}

/// `slot` holds the first runner in the sequence that serves `id`.
pub open spec fn is_first_slot(runners: Seq<TaskRunner>, id: usize, slot: int) -> bool {
    &&& 0 <= slot < runners.len()
    &&& runners[slot].id == id
    &&& forall|earlier: int| 0 <= earlier < slot ==> (#[trigger] runners[earlier]).id != id
}

/// The slot of the first runner that serves `id`, if there is one.
pub open spec fn slot_of(runners: Seq<TaskRunner>, id: usize) -> Option<int> {
    if live(runners, id) {
        Some(choose|slot: int| is_first_slot(runners, id, slot))
    } else {
        None
    }
}

/// The sequence without the first runner that serves `id`.
pub open spec fn without(runners: Seq<TaskRunner>, id: usize) -> Seq<TaskRunner> {
    match slot_of(runners, id) {
        Some(slot) => runners.remove(slot),
        None => runners,
    }
}

/// The number of runners in the sequence that serve `id`.
pub open spec fn executions(runners: Seq<TaskRunner>, id: usize) -> nat
    decreases runners.len(),
{
    if runners.len() == 0 {
        0
    } else {
        executions(runners.drop_last(), id) + if runners.last().id == id {
            1nat
        } else {
            0nat
        }
    }
}

/// The command halts a runner first: every `Update` and `Delete` does, and
/// no `Create`.
pub open spec fn halts<W>(task: SyncTask<W>) -> bool {
    task.op != Operation::Create
}

/// The command launches a runner: a `Create` or an `Update` that carries
/// work.
pub open spec fn launches<W>(task: SyncTask<W>) -> bool {
    task.op != Operation::Delete && task.func is Some
}

/// The sequence of runners once `task` has been handled.
pub open spec fn runners_after<W>(runners: Seq<TaskRunner>, task: SyncTask<W>) -> Seq<TaskRunner> {
    let kept = if halts(task) {
        without(runners, task.id)
    } else {
        runners
    };
    if launches(task) {
        kept.push(TaskRunner { id: task.id, frequency: task.frequency })
    } else {
        kept
    }
}

/// The effects of handling `task`, in the order in which they are due.
pub open spec fn effects_of<W>(runners: Seq<TaskRunner>, task: SyncTask<W>) -> Seq<Effect<W>> {
    let halt = if halts(task) && live(runners, task.id) {
        seq![Effect::<W>::Halt { slot: slot_of(runners, task.id).unwrap() as usize, id: task.id }]
    } else {
        Seq::<Effect<W>>::empty()
    };
    if launches(task) {
        halt.push(
            Effect::Launch { id: task.id, frequency: task.frequency, work: task.func.unwrap() },
        )
    } else {
        halt
    }
}

/// The sequence of runners once every command of `tasks` has been handled,
/// the first command first.
pub open spec fn runners_after_all<W>(runners: Seq<TaskRunner>, tasks: Seq<SyncTask<W>>) -> Seq<
    TaskRunner,
>
    decreases tasks.len(),
{
    if tasks.len() == 0 {
        runners
    } else {
        runners_after(runners_after_all(runners, tasks.drop_last()), tasks.last())
    }
}

/// The effects of handling every command of `tasks`, the first command
/// first, each from the state that its predecessors left.
pub open spec fn effects_of_all<W>(runners: Seq<TaskRunner>, tasks: Seq<SyncTask<W>>) -> Seq<
    Effect<W>,
>
    decreases tasks.len(),
{
    if tasks.len() == 0 {
        Seq::<Effect<W>>::empty()
    } else {
        effects_of_all(runners, tasks.drop_last()) + effects_of(
            runners_after_all(runners, tasks.drop_last()),
            tasks.last(),
        )
    }
}

/// A first slot is the only first slot.
pub proof fn lemma_first_slot(runners: Seq<TaskRunner>, id: usize, slot: int)
    requires
        is_first_slot(runners, id, slot),
    ensures
        live(runners, id),
        slot_of(runners, id) == Some(slot),
{
    let chosen = choose|s: int| is_first_slot(runners, id, s);
    assert(is_first_slot(runners, id, chosen));
    if chosen < slot {
        assert(runners[chosen].id != id);
    }
    if slot < chosen {
        assert(runners[slot].id != id);
    }
}

/// Where some runner serves `id`, one of them is the first.
pub proof fn lemma_live_has_first_slot(runners: Seq<TaskRunner>, id: usize)
    requires
        live(runners, id),
    ensures
        slot_of(runners, id) is Some,
        is_first_slot(runners, id, slot_of(runners, id).unwrap()),
    decreases runners.len(),
{
    let some = choose|slot: int| 0 <= slot < runners.len() && #[trigger] runners[slot].id == id;
    if exists|earlier: int| 0 <= earlier < some && #[trigger] runners[earlier].id == id {
        let earlier = choose|earlier: int| 0 <= earlier < some && #[trigger] runners[earlier].id == id;
        let shorter = runners.take(some);
        assert(shorter[earlier].id == id);
        lemma_live_has_first_slot(shorter, id);
        let first = slot_of(shorter, id).unwrap();
        assert forall|e: int| 0 <= e < first implies (#[trigger] runners[e]).id != id by {
            assert(shorter[e].id != id);
        }
        assert(shorter[first].id == id);
        assert(is_first_slot(runners, id, first));
    } else {
        assert(is_first_slot(runners, id, some));
    }
}

/// Appending a runner adds one execution to its task and none to another.
pub proof fn lemma_executions_push(runners: Seq<TaskRunner>, runner: TaskRunner, id: usize)
    ensures
        executions(runners.push(runner), id) == executions(runners, id) + if runner.id == id {
            1nat
        } else {
            0nat
        },
{
    assert(runners.push(runner).drop_last() =~= runners);
}

/// Removing the runner in a slot takes one execution from its task and none
/// from another.
pub proof fn lemma_executions_remove(runners: Seq<TaskRunner>, slot: int, id: usize)
    requires
        0 <= slot < runners.len(),
    ensures
        executions(runners.remove(slot), id) + (if runners[slot].id == id {
            1nat
        } else {
            0nat
        }) == executions(runners, id),
    decreases runners.len(),
{
    if slot == runners.len() - 1 {
        assert(runners.remove(slot) =~= runners.drop_last());
    } else {
        let shorter = runners.drop_last();
        lemma_executions_remove(shorter, slot, id);
        assert(runners.remove(slot) =~= shorter.remove(slot).push(runners.last()));
        lemma_executions_push(shorter.remove(slot), runners.last(), id);
    }
}

/// A task has an execution exactly when some runner serves it.
pub proof fn lemma_executions_live(runners: Seq<TaskRunner>, id: usize)
    ensures
        executions(runners, id) > 0 <==> live(runners, id),
    decreases runners.len(),
{
    if runners.len() > 0 {
        let shorter = runners.drop_last();
        lemma_executions_live(shorter, id);
        if live(shorter, id) {
            let slot = choose|slot: int| 0 <= slot < shorter.len() && #[trigger] shorter[slot].id == id;
            assert(runners[slot].id == id);
        }
        if runners.last().id == id {
            assert(runners[runners.len() - 1].id == id);
        }
        if live(runners, id) {
            let slot = choose|slot: int| 0 <= slot < runners.len() && #[trigger] runners[slot].id == id;
            if slot < shorter.len() {
                assert(shorter[slot].id == id);
            }
        }
    }
}

/// The scheduler of the synchronous substrate.
pub struct ThreadScheduler {
    tasks: Vec<TaskRunner>,
}

impl View for ThreadScheduler {
    type V = Seq<TaskRunner>;

    closed spec fn view(&self) -> Seq<TaskRunner> {
        self.tasks@
    }
}

impl ThreadScheduler {
    /// A scheduler without runners.
    pub fn new() -> (scheduler: Self)
        ensures
            scheduler@ == Seq::<TaskRunner>::empty(),
    {
        ThreadScheduler { tasks: Vec::new() }
    }

    /// The number of runners.
    pub fn len(&self) -> (len: usize)
        ensures
            len == self@.len(),
    {
        self.tasks.len()
    }

    /// The slot of the first runner that serves `id`.
    pub fn find_index(&self, id: usize) -> (slot: Option<usize>)
        ensures
            slot_of(self@, id) == match slot {
                Some(slot) => Some(slot as int),
                None => None,
            },
    {
        let mut slot: usize = 0;
        while slot < self.tasks.len()
            invariant
                slot <= self.tasks.len(),
                forall|earlier: int| 0 <= earlier < slot ==> (#[trigger] self.tasks@[earlier]).id != id,
            decreases self.tasks.len() - slot,
        {
            if self.tasks[slot].id == id {
                proof {
                    lemma_first_slot(self@, id, slot as int);
                }
                return Some(slot);
            }
            slot += 1;
        }
        None
    }

    /// Records a runner for `id` at the end of the sequence and asks for its
    /// launch.
    pub fn start<W>(&mut self, id: usize, frequency: Duration, work: W) -> (effect: Effect<W>)
        ensures
            final(self)@ == old(self)@.push(TaskRunner { id, frequency }),
            effect == (Effect::Launch { id, frequency, work }),
    {
        self.tasks.push(TaskRunner::new(id, frequency));
        Effect::Launch { id, frequency, work }
    }

    /// Drops the first runner that serves `id` and asks for its halt. An
    /// identifier that no runner serves changes nothing.
    pub fn stop<W>(&mut self, id: usize) -> (effect: Option<Effect<W>>)
        ensures
            final(self)@ == without(old(self)@, id),
            effect == match slot_of(old(self)@, id) {
                Some(slot) => Some(Effect::<W>::Halt { slot: slot as usize, id }),
                None => None,
            },
    {
        match self.find_index(id) {
            Some(slot) => {
                proof {
                    lemma_live_has_first_slot(self@, id);
                }
                self.tasks.remove(slot);
                Some(Effect::Halt { slot, id })
            },
            None => None,
        }
    }

    /// Applies one command and returns what is to be done for it: at most
    /// one halt, then at most one launch.
    pub fn handle<W>(&mut self, task: SyncTask<W>) -> (effects: Vec<Effect<W>>)
        ensures
            final(self)@ == runners_after(old(self)@, task),
            effects@ == effects_of(old(self)@, task),
    {
        let mut effects: Vec<Effect<W>> = Vec::new();
        let SyncTask { id, frequency, func, op } = task;
        match op {
            Operation::Create => {},
            Operation::Update | Operation::Delete => {
                if let Some(halt) = self.stop(id) {
                    effects.push(halt);
                }
            },
        }
        match op {
            Operation::Delete => {},
            Operation::Create | Operation::Update => {
                if let Some(work) = func {
                    let launch = self.start(id, frequency, work);
                    effects.push(launch);
                }
            },
        }
        assert(effects@ =~= effects_of(old(self)@, task));
        effects
    }

    /// Applies the commands in the order given, each to completion before
    /// the next, and returns all their effects in that order.
    pub fn serve<W>(&mut self, tasks: Vec<SyncTask<W>>) -> (effects: Vec<Effect<W>>)
        ensures
            final(self)@ == runners_after_all(old(self)@, tasks@),
            effects@ == effects_of_all(old(self)@, tasks@),
    {
        let mut effects: Vec<Effect<W>> = Vec::new();
        let ghost all = tasks@;
        let ghost before = self@;
        for task in it: tasks
            invariant
                it.seq() == all,
                self@ == runners_after_all(before, all.take(it.index() as int)),
                effects@ == effects_of_all(before, all.take(it.index() as int)),
        {
            proof {
                let done = it.index() as int;
                assert(all.take(done + 1).drop_last() =~= all.take(done));
                assert(all.take(done + 1).last() == task);
            }
            let mut step = self.handle(task);
            effects.append(&mut step);
        }
        assert(all.take(all.len() as int) =~= all);
        effects
    }
}

} // verus!
