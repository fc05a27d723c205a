//! What holds of the synchronous substrate, whatever the commands.
use crate::async_scheduler::scheduled_after;
use crate::model::{AsyncTask, Operation, SyncTask};
use crate::thread_scheduler::{
    effects_of, effects_of_all, executions, lemma_executions_live, lemma_executions_push,
    lemma_executions_remove, lemma_first_slot, lemma_live_has_first_slot, live, runners_after,
    runners_after_all, slot_of, without, Effect, TaskRunner,
};
use vstd::prelude::*;

verus! {

/// A command changes the number of executions of its own task only: it
/// takes one away where it halts a runner, and adds one where it launches.
pub proof fn law_execution_count<W>(runners: Seq<TaskRunner>, task: SyncTask<W>, id: usize)
    ensures
        executions(runners_after(runners, task), id) == executions(runners, id) - (if id == task.id
            && task.op != Operation::Create && live(runners, id) {
            1int
        } else {
            0int
        }) + (if id == task.id && task.op != Operation::Delete && task.func is Some {
            1int
        } else {
            0int
        }),
{
    let kept = if task.op != Operation::Create {
        without(runners, task.id)
    } else {
        runners
    };
    if task.op != Operation::Create && live(runners, task.id) {
        lemma_live_has_first_slot(runners, task.id);
        lemma_executions_remove(runners, slot_of(runners, task.id).unwrap(), id);
    }
    if task.op != Operation::Delete && task.func is Some {
        lemma_executions_push(kept, TaskRunner { id: task.id, frequency: task.frequency }, id);
    }
}

/// After a `Create` for a task that no runner serves, exactly one runner
/// serves it: the last of the sequence, with the period of the command; and
/// the one effect is its launch.
pub proof fn law_create_starts_one<W>(runners: Seq<TaskRunner>, task: SyncTask<W>)
    requires
        task.op == Operation::Create,
        task.func is Some,
        !live(runners, task.id),
    ensures
        executions(runners_after(runners, task), task.id) == 1,
        runners_after(runners, task) == runners.push(
            TaskRunner { id: task.id, frequency: task.frequency },
        ),
        effects_of(runners, task) == seq![
            Effect::Launch { id: task.id, frequency: task.frequency, work: task.func.unwrap() },
        ],
{
    law_execution_count(runners, task, task.id);
    lemma_executions_live(runners, task.id);
    assert(effects_of(runners, task) =~= seq![
        Effect::Launch { id: task.id, frequency: task.frequency, work: task.func.unwrap() },
    ]);
}

/// After a `Delete` for a task with at most one runner, no runner serves
/// it, and the command launches nothing: its only effect, if any, is the
/// halt of that runner.
pub proof fn law_delete_ends_execution<W>(runners: Seq<TaskRunner>, task: SyncTask<W>)
    requires
        task.op == Operation::Delete,
        executions(runners, task.id) <= 1,
    ensures
        executions(runners_after(runners, task), task.id) == 0,
        !live(runners_after(runners, task), task.id),
        runners_after(runners, task).len() == runners.len() - if live(runners, task.id) {
            1int
        } else {
            0int
        },
        forall|i: int|
            0 <= i < effects_of(runners, task).len() ==> (#[trigger] effects_of(runners, task)[i])
                is Halt,
{
    law_execution_count(runners, task, task.id);
    lemma_executions_live(runners, task.id);
    lemma_executions_live(runners_after(runners, task), task.id);
    if live(runners, task.id) {
        lemma_live_has_first_slot(runners, task.id);
    }
}

/// A `Delete` for a task that no runner serves changes nothing and asks for
/// nothing.
pub proof fn law_unknown_delete_is_ignored<W>(runners: Seq<TaskRunner>, task: SyncTask<W>)
    requires
        task.op == Operation::Delete,
        !live(runners, task.id),
    ensures
        runners_after(runners, task) == runners,
        effects_of(runners, task) == Seq::<Effect<W>>::empty(),
{
}

/// An `Update` for a task with one runner halts that runner and then
/// launches the replacement: the halt comes first, and afterwards one
/// runner serves the task again, the last of the sequence.
pub proof fn law_update_replaces<W>(runners: Seq<TaskRunner>, task: SyncTask<W>)
    requires
        task.op == Operation::Update,
        task.func is Some,
        executions(runners, task.id) == 1,
    ensures
        executions(runners_after(runners, task), task.id) == 1,
        slot_of(runners, task.id) is Some,
        effects_of(runners, task) == seq![
            Effect::Halt { slot: slot_of(runners, task.id).unwrap() as usize, id: task.id },
            Effect::Launch { id: task.id, frequency: task.frequency, work: task.func.unwrap() },
        ],
        runners_after(runners, task).len() == runners.len(),
        runners_after(runners, task).last() == (TaskRunner {
            id: task.id,
            frequency: task.frequency,
        }),
{
    law_execution_count(runners, task, task.id);
    lemma_executions_live(runners, task.id);
    lemma_live_has_first_slot(runners, task.id);
    assert(effects_of(runners, task) =~= seq![
        Effect::Halt { slot: slot_of(runners, task.id).unwrap() as usize, id: task.id },
        Effect::Launch { id: task.id, frequency: task.frequency, work: task.func.unwrap() },
    ]);
}

/// An `Update` for a task that no runner serves has nothing to halt: it
/// launches the task as a `Create` does, and afterwards one runner serves
/// it.
pub proof fn law_update_of_unknown_starts_one<W>(runners: Seq<TaskRunner>, task: SyncTask<W>)
    requires
        task.op == Operation::Update,
        task.func is Some,
        !live(runners, task.id),
    ensures
        executions(runners_after(runners, task), task.id) == 1,
        runners_after(runners, task) == runners.push(
            TaskRunner { id: task.id, frequency: task.frequency },
        ),
        effects_of(runners, task) == seq![
            Effect::Launch { id: task.id, frequency: task.frequency, work: task.func.unwrap() },
        ],
{
    law_execution_count(runners, task, task.id);
    lemma_executions_live(runners, task.id);
    assert(effects_of(runners, task) =~= seq![
        Effect::Launch { id: task.id, frequency: task.frequency, work: task.func.unwrap() },
    ]);
}

/// No task has two runners.
pub open spec fn single_executions(runners: Seq<TaskRunner>) -> bool {
    forall|id: usize| #[trigger] executions(runners, id) <= 1
}

/// Two executions of one task never exist side by side: where no task has
/// two runners, and the command is not a `Create` for a task that has one,
/// no task has two runners afterwards.
pub proof fn law_single_executions_kept<W>(runners: Seq<TaskRunner>, task: SyncTask<W>)
    requires
        single_executions(runners),
        task.op == Operation::Create ==> !live(runners, task.id),
    ensures
        single_executions(runners_after(runners, task)),
{
    assert forall|id: usize| #[trigger] executions(runners_after(runners, task), id) <= 1 by {
        law_execution_count(runners, task, id);
        lemma_executions_live(runners, id);
        assert(executions(runners, id) <= 1);
    }
}

/// Every `Create` of the batch is for a task that no runner serves when the
/// command's turn comes.
pub open spec fn creates_are_fresh<W>(runners: Seq<TaskRunner>, tasks: Seq<SyncTask<W>>) -> bool {
    forall|turn: int|
        0 <= turn < tasks.len() && (#[trigger] tasks[turn]).op == Operation::Create ==> !live(
            runners_after_all(runners, tasks.take(turn)),
            tasks[turn].id,
        )
}

/// Two executions of one task never exist side by side, however long the
/// scheduler runs: where no task has two runners, and no `Create` of the
/// batch is for a task that has one when its turn comes, no task has two
/// runners after the batch.
pub proof fn law_single_executions_kept_by_batch<W>(
    runners: Seq<TaskRunner>,
    tasks: Seq<SyncTask<W>>,
)
    requires
        single_executions(runners),
        creates_are_fresh(runners, tasks),
    ensures
        single_executions(runners_after_all(runners, tasks)),
    decreases tasks.len(),
{
    if tasks.len() > 0 {
        let earlier = tasks.drop_last();
        assert forall|turn: int|
            0 <= turn < earlier.len() && (#[trigger] earlier[turn]).op
                == Operation::Create implies !live(
            runners_after_all(runners, earlier.take(turn)),
            earlier[turn].id,
        ) by {
            assert(earlier.take(turn) =~= tasks.take(turn));
            assert(earlier[turn] == tasks[turn]);
        }
        law_single_executions_kept_by_batch(runners, earlier);
        let last = tasks.len() - 1;
        assert(tasks.take(last) =~= earlier);
        assert(tasks[last] == tasks.last());
        law_single_executions_kept(runners_after_all(runners, earlier), tasks.last());
    }
}

/// A burst of `Create`, `Delete`, `Create` for a task that no runner
/// served leaves exactly one runner for it: the one of the second `Create`.
pub proof fn law_burst_leaves_one<W>(
    runners: Seq<TaskRunner>,
    create: SyncTask<W>,
    delete: SyncTask<W>,
    again: SyncTask<W>,
)
    requires
        create.op == Operation::Create,
        delete.op == Operation::Delete,
        again.op == Operation::Create,
        create.id == delete.id,
        create.id == again.id,
        again.func is Some,
        !live(runners, create.id),
    ensures
        runners_after(runners_after(runners_after(runners, create), delete), again) == runners.push(
            TaskRunner { id: again.id, frequency: again.frequency },
        ),
        executions(
            runners_after(runners_after(runners_after(runners, create), delete), again),
            create.id,
        ) == 1,
{
    law_create_then_delete_restores(runners, create, delete);
    law_create_starts_one(runners, again);
}

/// The set of tasks that some runner serves.
pub open spec fn live_ids(runners: Seq<TaskRunner>) -> Set<usize> {
    Set::new(|id: usize| live(runners, id))
}

/// Both substrates serve one command interface: while no task has two
/// runners, a command leaves the same tasks live on the synchronous
/// substrate as the like command leaves scheduled on the asynchronous one.
pub proof fn law_substrates_agree<W, V>(
    runners: Seq<TaskRunner>,
    blocking: SyncTask<W>,
    cooperative: AsyncTask<V>,
)
    requires
        single_executions(runners),
        blocking.well_formed(),
        blocking.id == cooperative.id,
        blocking.op == cooperative.op,
        blocking.func is Some <==> cooperative.func is Some,
    ensures
        live_ids(runners_after(runners, blocking)) == scheduled_after(
            live_ids(runners),
            cooperative,
        ),
{
    let after = runners_after(runners, blocking);
    assert forall|id: usize|
        live_ids(after).contains(id) <==> scheduled_after(live_ids(runners), cooperative).contains(
            id,
        ) by {
        law_execution_count(runners, blocking, id);
        lemma_executions_live(runners, id);
        lemma_executions_live(after, id);
        assert(executions(runners, id) <= 1);
    }
    assert(live_ids(after) =~= scheduled_after(live_ids(runners), cooperative));
}

/// A `Create` followed by a `Delete` of the same task, which no runner
/// served before, leaves the sequence of runners as it was.
pub proof fn law_create_then_delete_restores<W>(
    runners: Seq<TaskRunner>,
    create: SyncTask<W>,
    delete: SyncTask<W>,
)
    requires
        create.op == Operation::Create,
        delete.op == Operation::Delete,
        create.id == delete.id,
        !live(runners, create.id),
    ensures
        runners_after(runners_after(runners, create), delete) == runners,
{
    if create.func is Some {
        let grown = runners.push(TaskRunner { id: create.id, frequency: create.frequency });
        assert(grown[runners.len() as int].id == create.id);
        assert forall|earlier: int| 0 <= earlier < runners.len() implies (#[trigger] grown[earlier]).id
            != create.id by {
            assert(grown[earlier] == runners[earlier]);
        }
        lemma_first_slot(grown, create.id, runners.len() as int);
        assert(grown.remove(runners.len() as int) =~= runners);
    }
}

/// Commands take effect in the order in which they are given: handling a
/// batch is handling its first part to completion and then the rest, from
/// the state that the first part left.
pub proof fn law_commands_apply_in_order<W>(
    runners: Seq<TaskRunner>,
    first: Seq<SyncTask<W>>,
    rest: Seq<SyncTask<W>>,
)
    ensures
        runners_after_all(runners, first + rest) == runners_after_all(
            runners_after_all(runners, first),
            rest,
        ),
        effects_of_all(runners, first + rest) == effects_of_all(runners, first) + effects_of_all(
            runners_after_all(runners, first),
            rest,
        ),
    decreases rest.len(),
{
    if rest.len() == 0 {
        assert(first + rest =~= first);
        assert(effects_of_all(runners, first) + Seq::<Effect<W>>::empty() =~= effects_of_all(
            runners,
            first,
        ));
    } else {
        law_commands_apply_in_order(runners, first, rest.drop_last());
        assert((first + rest).drop_last() =~= first + rest.drop_last());
        assert((first + rest).last() == rest.last());
        let middle = runners_after_all(runners, first);
        assert(effects_of_all(runners, first + rest) =~= effects_of_all(runners, first) + (
        effects_of_all(middle, rest.drop_last()) + effects_of(
            runners_after_all(middle, rest.drop_last()),
            rest.last(),
        )));
    }
}

/// Handling one command is handling the batch that holds only that command.
pub proof fn law_single_command<W>(runners: Seq<TaskRunner>, task: SyncTask<W>)
    ensures
        runners_after_all(runners, seq![task]) == runners_after(runners, task),
        effects_of_all(runners, seq![task]) == effects_of(runners, task),
{
    let one = seq![task];
    assert(one.drop_last() =~= Seq::<SyncTask<W>>::empty());
    assert(one.last() == task);
    assert(runners_after_all(runners, one.drop_last()) == runners);
    assert(effects_of_all(runners, one.drop_last()) =~= Seq::<Effect<W>>::empty());
    assert(effects_of_all(runners, one) =~= effects_of(runners, task));
}

/// Every effect of a command is for the task that the command names: a
/// halt points at a runner of that task, and a launch carries the period and
/// the work of the command.
pub proof fn law_effects_name_the_task<W>(runners: Seq<TaskRunner>, task: SyncTask<W>, i: int)
    requires
        runners.len() <= usize::MAX,
        0 <= i < effects_of(runners, task).len(),
    ensures
        match effects_of(runners, task)[i] {
            Effect::Halt { slot, id } => id == task.id && 0 <= slot < runners.len()
                && runners[slot as int].id == task.id,
            Effect::Launch { id, frequency, work } => id == task.id && frequency == task.frequency
                && task.func == Some(work),
        },
{
    if task.op != Operation::Create && live(runners, task.id) {
        lemma_live_has_first_slot(runners, task.id);
    }
}

} // verus!
