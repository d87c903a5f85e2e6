//! An issue and its delivery tasks appear together or not at all, and the
//! tasks of an issue stay accounted for until the last of them is done.

use crate::database::model::{DatabaseView, IssueView, TaskId};
use crate::guarantees::history::{Operation, World};
use crate::routes::newsletters::{publish, RequestView};
use vstd::prelude::*;
use vstd::set_lib::lemma_set_disjoint_lens;

verus! {

/// A publish request publishes everything or nothing.
///
/// Where the request is accepted, the store gains the issue, under an id
/// that was free, and a pending task for exactly the subscribers that were
/// confirmed; the tasks of all other issues are as before. Where the request
/// ends in any other way, issues and tasks are as before.
pub proof fn lemma_publish_is_all_or_nothing(db: DatabaseView, request: RequestView)
    requires
        db.wf(),
    ensures
        ({
            let (after, outcome) = publish(db, request);
            if outcome is Accepted {
                &&& !db.issues.contains_key(request.issue_id)
                &&& after.issues == db.issues.insert(request.issue_id, request.issue)
                &&& after.pending(request.issue_id) == db.confirmed()
                &&& forall|other: u128|
                    other != request.issue_id ==> #[trigger] after.pending(other) == db.pending(
                        other,
                    )
            } else {
                &&& after.issues == db.issues
                &&& after.queue == db.queue
            }
        }),
{
    let (after, outcome) = publish(db, request);
    if outcome is Accepted {
        assert forall|email: Seq<char>| after.pending(request.issue_id).contains(email)
            <==> db.confirmed().contains(email) by {
            if db.queue.contains_key((request.issue_id, email)) {
                assert(db.issues.contains_key(request.issue_id));
            }
        }
        assert(after.pending(request.issue_id) =~= db.confirmed());
        assert forall|other: u128| other != request.issue_id implies #[trigger] after.pending(
            other,
        ) == db.pending(other) by {
            assert(after.pending(other) =~= db.pending(other));
        }
    }
}

/// What an open transaction has written cannot be seen, and a rollback
/// leaves no trace of it: writing the issue changes neither the issues nor
/// the tasks of the store, and rolling back afterwards gives the store that
/// a rollback without the write would have given.
pub proof fn lemma_uncommitted_is_invisible(
    db: DatabaseView,
    claim: (u128, Seq<char>),
    issue_id: u128,
    issue: IssueView,
)
    requires
        db.can_stage(claim, issue_id),
    ensures
        db.stage(claim, issue_id, issue).issues == db.issues,
        db.stage(claim, issue_id, issue).queue == db.queue,
        db.stage(claim, issue_id, issue).rollback(claim) == db.rollback(claim),
{
    assert(db.stage(claim, issue_id, issue).rollback(claim).idempotency =~= db.rollback(
        claim,
    ).idempotency);
}

/// Tasks enter the queue only together with their issue: a task that an
/// operation adds belongs to an issue that the same operation adds, and with
/// it come the tasks for all the addresses enqueued for that issue.
pub proof fn lemma_tasks_appear_with_their_issue(world: World, operation: Operation, task: TaskId)
    requires
        world.sound(),
        !world.db.queue.contains_key(task),
        world.apply(operation).db.queue.contains_key(task),
    ensures
        !world.db.issues.contains_key(task.0),
        world.apply(operation).db.issues.contains_key(task.0),
        world.apply(operation).db.pending(task.0) == world.apply(operation).ledger.enqueued[task.0],
{
    let after = world.apply(operation);
    world.lemma_apply_sound(operation);
    match operation {
        Operation::SaveResponse { claim, response } => {
            let staged = world.db.staged(claim).unwrap();
            assert(crate::database::model::staged_under(world.db.idempotency, claim) is Some);
            assert forall|email: Seq<char>| after.db.pending(task.0).contains(email)
                <==> after.ledger.enqueued[task.0].contains(email) by {
                if world.ledger.settled.contains((task.0, email)) {
                    assert(world.db.issues.contains_key(task.0));
                }
            }
            assert(after.db.pending(task.0) =~= after.ledger.enqueued[task.0]);
        },
        _ => {},
    }
}

/// The tasks of an issue stay accounted for.
///
/// Start from any well-formed store and let anything happen to it. Then for
/// every issue in the store, the addresses whose task is still pending and
/// the addresses whose task a worker has deleted are disjoint, and together
/// they are the addresses for which a task was enqueued when the issue was
/// published. So the number of pending tasks plus the number of deleted ones
/// is the number of subscribers confirmed at publish time.
pub proof fn lemma_outbox_is_accounted_for(db: DatabaseView, history: Seq<Operation>, issue_id: u128)
    requires
        db.wf(),
        World::opening(db).run(history).db.issues.contains_key(issue_id),
    ensures
        ({
            let world = World::opening(db).run(history);
            let pending = world.db.pending(issue_id);
            let settled = world.settled(issue_id);
            &&& world.ledger.enqueued.contains_key(issue_id)
            &&& pending.disjoint(settled)
            &&& pending + settled == world.ledger.enqueued[issue_id]
            &&& pending.finite() && settled.finite() ==> pending.len() + settled.len()
                == world.ledger.enqueued[issue_id].len()
        }),
{
    World::lemma_opening_sound(db);
    World::opening(db).lemma_run_sound(history);
    let world = World::opening(db).run(history);
    let pending = world.db.pending(issue_id);
    let settled = world.settled(issue_id);
    assert forall|email: Seq<char>| !(pending.contains(email) && settled.contains(email)) by {
        if settled.contains(email) {
            assert(world.ledger.settled.contains((issue_id, email)));
        }
    }
    assert forall|email: Seq<char>| (pending + settled).contains(email)
        <==> world.ledger.enqueued[issue_id].contains(email) by {}
    assert(pending + settled =~= world.ledger.enqueued[issue_id]);
    if pending.finite() && settled.finite() {
        lemma_set_disjoint_lens(pending, settled);
    }
}

} // verus!
