//! Workers do not step on each other, a failed delivery is tried again, and
//! a task that cannot be delivered is dropped without a try.

use crate::database::model::{DatabaseView, TaskId};
use crate::domain::subscriber_email::is_email_address;
use crate::guarantees::history::{Operation, World};
use crate::issue_delivery_worker::{pass_result, ExecutionOutcome, WorkerError};
use vstd::prelude::*;

verus! {

/// A pass of the worker is a piece of history: where the pass takes a task
/// with a well-formed address, the store afterwards is the store after the
/// worker has selected the task and handed it to the transport; where the
/// address is malformed, it is the store after the worker has selected the
/// task and discarded it.
pub proof fn lemma_pass_is_history(db: DatabaseView, task: TaskId, worker: u64, delivers: bool)
    requires
        db.wf(),
        db.is_available(task),
    ensures
        pass_result(db, Some(task), delivers).0 == World::opening(db).apply(
            Operation::Dequeue { task, worker },
        ).apply(
            if is_email_address(task.1) {
                Operation::Deliver { task, worker, delivered: delivers }
            } else {
                Operation::Discard { task, worker }
            },
        ).db,
{
    let locked = db.lock(task, worker);
    assert(locked.is_held_by(task, worker));
    assert(db.issues.contains_key(task.0));
    assert(locked.delete_task(task).queue =~= db.delete_task(task).queue);
    assert(locked.release_task(task).queue =~= db.queue);
}

/// While one worker holds a task, the task is out of reach for every other
/// worker: another worker can neither select it, nor send it, nor discard
/// it, nor release it. Whatever it tries leaves the world as it is.
pub proof fn lemma_held_task_is_exclusive(
    world: World,
    task: TaskId,
    holder: u64,
    other: u64,
    operation: Operation,
)
    requires
        world.db.is_held_by(task, holder),
        other != holder,
        operation == (Operation::Dequeue { task, worker: other }) || (exists|delivered: bool|
            operation == Operation::Deliver { task, worker: other, delivered }) || operation == (
        Operation::Discard { task, worker: other }) || operation == (Operation::Abandon {
            task,
            worker: other,
        }),
    ensures
        world.apply(operation) == world,
{
}

/// No task is delivered twice.
///
/// Start from any well-formed store and let anything happen to it, with any
/// number of workers: the transport never takes the email of one task a
/// second time, and every task whose email it took is out of the queue.
pub proof fn lemma_delivered_at_most_once(db: DatabaseView, history: Seq<Operation>)
    requires
        db.wf(),
    ensures
        ({
            let world = World::opening(db).run(history);
            &&& world.ledger.deliveries.no_duplicates()
            &&& forall|i: int|
                0 <= i < world.ledger.deliveries.len() ==> !world.db.queue.contains_key(
                    #[trigger] world.ledger.deliveries[i],
                )
        }),
{
    World::lemma_opening_sound(db);
    World::opening(db).lemma_run_sound(history);
    let world = World::opening(db).run(history);
    assert forall|i: int| 0 <= i < world.ledger.deliveries.len() implies !world.db.queue.contains_key(
        #[trigger] world.ledger.deliveries[i],
    ) by {
        assert(world.ledger.settled.contains(world.ledger.deliveries[i]));
    }
}

/// A delivery that fails is tried again.
///
/// A pass that takes a task with a well-formed address and finds the
/// transport failing hands the email to the transport and leaves the store
/// as it found it: the task is pending and free. A later pass that takes the
/// task and finds the transport working hands the email over once more and
/// deletes the task. The transport has then been asked twice.
pub proof fn lemma_failed_delivery_is_retried(db: DatabaseView, task: TaskId)
    requires
        db.wf(),
        db.is_available(task),
        is_email_address(task.1),
    ensures
        ({
            let first = pass_result(db, Some(task), false);
            let second = pass_result(first.0, Some(task), true);
            &&& first.0 == db
            &&& first.1 == Ok::<ExecutionOutcome, WorkerError>(ExecutionOutcome::TaskCompleted)
            &&& first.2 is Some
            &&& second.2 == first.2
            &&& second.1 == Ok::<ExecutionOutcome, WorkerError>(ExecutionOutcome::TaskCompleted)
            &&& !second.0.queue.contains_key(task)
        }),
        ({
            let first = Operation::Deliver { task, worker: 1, delivered: false };
            let second = Operation::Deliver { task, worker: 2, delivered: true };
            let world = World::opening(db).apply(Operation::Dequeue { task, worker: 1 }).apply(
                first,
            ).apply(Operation::Dequeue { task, worker: 2 }).apply(second);
            &&& world.ledger.attempts == seq![task, task]
            &&& world.ledger.deliveries == seq![task]
            &&& !world.db.queue.contains_key(task)
        }),
{
    assert(db.issues.contains_key(task.0));
    let opening = World::opening(db);
    let locked = opening.apply(Operation::Dequeue { task, worker: 1 });
    assert(locked.db.is_held_by(task, 1));
    let failed = locked.apply(Operation::Deliver { task, worker: 1, delivered: false });
    assert(failed.db.queue =~= db.queue);
    assert(failed.db.is_available(task));
    let relocked = failed.apply(Operation::Dequeue { task, worker: 2 });
    assert(relocked.db.is_held_by(task, 2));
    let done = relocked.apply(Operation::Deliver { task, worker: 2, delivered: true });
    assert(done.ledger.attempts =~= seq![task, task]);
    assert(done.ledger.deliveries =~= seq![task]);
}

/// A task that cannot be delivered is dropped at once.
///
/// A pass that takes a task whose stored address is malformed deletes the
/// task and hands nothing to the transport, whether the transport works or
/// not.
pub proof fn lemma_malformed_address_is_dropped(db: DatabaseView, task: TaskId, delivers: bool)
    requires
        db.is_available(task),
        !is_email_address(task.1),
    ensures
        ({
            let pass = pass_result(db, Some(task), delivers);
            &&& pass.0 == db.delete_task(task)
            &&& !pass.0.queue.contains_key(task)
            &&& pass.1 == Ok::<ExecutionOutcome, WorkerError>(ExecutionOutcome::TaskCompleted)
            &&& pass.2 is None
        }),
{
}

/// Only well-formed addresses reach the transport, whatever happens.
pub proof fn lemma_only_well_formed_addresses_are_tried(db: DatabaseView, history: Seq<Operation>)
    requires
        db.wf(),
    ensures
        forall|i: int|
            0 <= i < World::opening(db).run(history).ledger.attempts.len() ==> is_email_address(
                (#[trigger] World::opening(db).run(history).ledger.attempts[i]).1,
            ),
{
    World::lemma_opening_sound(db);
    World::opening(db).lemma_run_sound(history);
}

} // verus!
