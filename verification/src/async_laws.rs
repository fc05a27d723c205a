//! What holds of the asynchronous substrate, whatever the commands.
use crate::async_scheduler::{
    cancelled_as, handled, scheduled_after, scheduled_after_all, AsyncEffect, Scheduled,
};
use crate::model::{AsyncTask, Operation};
use vstd::prelude::*;

verus! {

/// After a `Create` or an `Update` that carries work, the task is
/// scheduled, and no other task was added or lost.
pub proof fn law_start_schedules_one<W>(scheduled: Set<usize>, task: AsyncTask<W>)
    requires
        task.op != Operation::Delete,
        task.func is Some,
    ensures
        scheduled_after(scheduled, task).contains(task.id),
        scheduled_after(scheduled, task) == scheduled.insert(task.id),
        forall|other: usize|
            other != task.id ==> (scheduled_after(scheduled, task).contains(other)
                <==> scheduled.contains(other)),
{
}

/// Replacing a scheduled task neither adds nor loses a task: the set of
/// scheduled identifiers stays as it was.
pub proof fn law_update_keeps_scheduled<W>(scheduled: Set<usize>, task: AsyncTask<W>)
    requires
        task.op == Operation::Update,
        task.func is Some,
        scheduled.contains(task.id),
    ensures
        scheduled_after(scheduled, task) == scheduled,
{
    assert(scheduled.insert(task.id) =~= scheduled);
}

/// After a `Delete` the task is not scheduled, and no other task was added
/// or lost.
pub proof fn law_delete_unschedules<W>(scheduled: Set<usize>, task: AsyncTask<W>)
    requires
        task.op == Operation::Delete,
    ensures
        !scheduled_after(scheduled, task).contains(task.id),
        scheduled_after(scheduled, task) == scheduled.remove(task.id),
        forall|other: usize|
            other != task.id ==> (scheduled_after(scheduled, task).contains(other)
                <==> scheduled.contains(other)),
{
}

/// A `Delete` for a task that is not scheduled changes nothing.
pub proof fn law_unknown_delete_is_ignored<W>(scheduled: Set<usize>, task: AsyncTask<W>)
    requires
        task.op == Operation::Delete,
        !scheduled.contains(task.id),
    ensures
        scheduled_after(scheduled, task) == scheduled,
{
    assert(scheduled.remove(task.id) =~= scheduled);
}

/// A `Create` followed by a `Delete` of the same task, which was not
/// scheduled before, leaves the set of scheduled tasks as it was.
pub proof fn law_create_then_delete_restores<W>(
    scheduled: Set<usize>,
    create: AsyncTask<W>,
    delete: AsyncTask<W>,
)
    requires
        create.op == Operation::Create,
        delete.op == Operation::Delete,
        create.id == delete.id,
        !scheduled.contains(create.id),
    ensures
        scheduled_after(scheduled_after(scheduled, create), delete) == scheduled,
{
    assert(scheduled_after(scheduled_after(scheduled, create), delete) =~= scheduled);
}

/// A burst of `Create`, `Delete`, `Create` for one task leaves that task
/// scheduled, once, and every other task as it was.
pub proof fn law_burst_leaves_one<W>(
    scheduled: Set<usize>,
    create: AsyncTask<W>,
    delete: AsyncTask<W>,
    again: AsyncTask<W>,
)
    requires
        create.op == Operation::Create,
        delete.op == Operation::Delete,
        again.op == Operation::Create,
        create.id == delete.id,
        create.id == again.id,
        again.func is Some,
    ensures
        scheduled_after(scheduled_after(scheduled_after(scheduled, create), delete), again)
            == scheduled.insert(create.id),
{
    assert(scheduled_after(scheduled_after(scheduled_after(scheduled, create), delete), again)
        =~= scheduled.insert(create.id));
}

/// Commands take effect in the order in which they are given: handling a
/// batch is handling its first part to completion and then the rest, from
/// the state that the first part left.
pub proof fn law_commands_apply_in_order<W>(
    scheduled: Set<usize>,
    first: Seq<AsyncTask<W>>,
    rest: Seq<AsyncTask<W>>,
)
    ensures
        scheduled_after_all(scheduled, first + rest) == scheduled_after_all(
            scheduled_after_all(scheduled, first),
            rest,
        ),
    decreases rest.len(),
{
    if rest.len() == 0 {
        assert(first + rest =~= first);
    } else {
        law_commands_apply_in_order(scheduled, first, rest.drop_last());
        assert((first + rest).drop_last() =~= first + rest.drop_last());
        assert((first + rest).last() == rest.last());
    }
}

/// Handling one command is handling the batch that holds only that command.
pub proof fn law_single_command<W>(scheduled: Set<usize>, task: AsyncTask<W>)
    ensures
        scheduled_after_all(scheduled, seq![task]) == scheduled_after(scheduled, task),
{
    let one = seq![task];
    assert(one.drop_last() =~= Seq::<AsyncTask<W>>::empty());
    assert(one.last() == task);
    assert(scheduled_after_all(scheduled, one.drop_last()) == scheduled);
}

/// A `Delete` of a scheduled task does one thing: it signals cancellation
/// on the handle that was scheduled under the identifier. Then that entry
/// is gone, every other execution is as it was, and nothing was spawned.
pub proof fn law_delete_cancels_the_execution<W>(
    before: Map<usize, Scheduled>,
    started: nat,
    task: AsyncTask<W>,
    after: Map<usize, Scheduled>,
    done: Seq<AsyncEffect>,
)
    requires
        handled(before, started, task, after, done),
        task.op == Operation::Delete,
        before.contains_key(task.id),
    ensures
        done.len() == 1,
        cancelled_as(done[0], task.id, before[task.id].handle),
        after == before.remove(task.id),
{
    assert(after.dom() =~= before.remove(task.id).dom());
    assert(after =~= before.remove(task.id));
}

/// An `Update` of a scheduled task does two things, in this order: it
/// signals cancellation on the handle that was scheduled under the
/// identifier, and it spawns the work of the command. The same tasks are
/// scheduled as before, every other execution is as it was, and the
/// execution under the identifier is the new one, not the old.
pub proof fn law_update_cancels_then_spawns<W>(
    before: Map<usize, Scheduled>,
    started: nat,
    task: AsyncTask<W>,
    after: Map<usize, Scheduled>,
    done: Seq<AsyncEffect>,
)
    requires
        handled(before, started, task, after, done),
        task.op == Operation::Update,
        task.func is Some,
        before.contains_key(task.id),
        before[task.id].serial@ < started,
    ensures
        done.len() == 2,
        cancelled_as(done[0], task.id, before[task.id].handle),
        done[1] == (AsyncEffect::Spawned { id: task.id }),
        after.dom() == before.dom(),
        after[task.id].serial@ == started,
        after[task.id].serial@ != before[task.id].serial@,
        forall|other: usize|
            other != task.id && before.contains_key(other) ==> after[other] == before[other],
{
    assert(before.dom().insert(task.id) =~= before.dom());
}

/// A `Create` of a task that was not scheduled, followed by its `Delete`,
/// leaves the executions as they were: the `Create` only spawns, the
/// `Delete` only signals cancellation, and it does so on the handle that
/// the `Create` had scheduled.
pub proof fn law_create_then_delete_cancels_what_it_spawned<W>(
    before: Map<usize, Scheduled>,
    started: nat,
    create: AsyncTask<W>,
    between: Map<usize, Scheduled>,
    created: Seq<AsyncEffect>,
    delete: AsyncTask<W>,
    after: Map<usize, Scheduled>,
    deleted: Seq<AsyncEffect>,
)
    requires
        create.op == Operation::Create,
        create.func is Some,
        delete.op == Operation::Delete,
        create.id == delete.id,
        !before.contains_key(create.id),
        handled(before, started, create, between, created),
        handled(between, started + 1, delete, after, deleted),
    ensures
        created == seq![AsyncEffect::Spawned { id: create.id }],
        between[create.id].serial@ == started,
        deleted.len() == 1,
        cancelled_as(deleted[0], create.id, between[create.id].handle),
        after == before,
{
    assert(created =~= seq![AsyncEffect::Spawned { id: create.id }]);
    assert(between.contains_key(create.id));
    assert(after.dom() =~= before.dom());
    assert forall|id: usize| before.contains_key(id) implies after[id] == before[id] by {
        assert(between[id] == before[id]);
    }
    assert(after =~= before);
}

} // verus!
