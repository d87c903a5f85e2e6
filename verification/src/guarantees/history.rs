//! The store together with a record of what was done to it: every statement
//! that the endpoints, the workers and the reaper can issue, and a ledger of
//! the tasks that were enqueued, tried and settled.

use crate::database::model::{ClaimId, DatabaseView, IssueView, TaskId};
use crate::domain::subscriber_email::is_email_address;
use crate::idempotency::persistence::ResponseView;
use vstd::prelude::*;

verus! {

/// One statement on the store.
pub enum Operation {
    /// Somebody subscribes.
    InsertSubscriber { email: Seq<char> },
    /// A subscriber confirms.
    ConfirmSubscriber { email: Seq<char> },
    /// A publish request claims its key.
    Claim { claim: ClaimId, now: i64 },
    /// The request that holds `claim` writes its issue and the tasks.
    EnqueueIssue { claim: ClaimId, issue_id: u128, issue: IssueView },
    /// The request that holds `claim` stores its response and commits.
    SaveResponse { claim: ClaimId, response: ResponseView },
    /// The request that holds `claim` gives up.
    Rollback { claim: ClaimId },
    /// The reaper removes old idempotency records.
    RemoveOldEntries { now: i64 },
    /// `worker` selects `task` and locks it.
    Dequeue { task: TaskId, worker: u64 },
    /// `worker` hands the email of `task` to the transport, and deletes the
    /// task if the transport took it, or leaves it in the queue if not.
    Deliver { task: TaskId, worker: u64, delivered: bool },
    /// `worker` deletes `task` because its address is malformed.
    Discard { task: TaskId, worker: u64 },
    /// `worker` rolls back and leaves `task` in the queue.
    Abandon { task: TaskId, worker: u64 },
}

/// What has happened to delivery tasks so far.
pub struct Ledger {
    /// For each issue, the addresses for which a task was enqueued when the
    /// issue was published.
    pub enqueued: Map<u128, Set<Seq<char>>>,
    /// The tasks that a worker has deleted.
    pub settled: Set<TaskId>,
    /// The task of every email handed to the transport, in order.
    pub attempts: Seq<TaskId>,
    /// The task of every email that the transport took, in order.
    pub deliveries: Seq<TaskId>,
}

/// The store and its ledger.
pub struct World {
    pub db: DatabaseView,
    pub ledger: Ledger,
}

impl World {
    /// The world that starts at the store `db`: the tasks pending now count
    /// as enqueued, and nothing has been tried or settled.
    pub open spec fn opening(db: DatabaseView) -> World {
        World {
            db,
            ledger: Ledger {
                enqueued: Map::new(
                    |issue_id: u128| db.issues.contains_key(issue_id),
                    |issue_id: u128| db.pending(issue_id),
                ),
                settled: Set::empty(),
                attempts: Seq::empty(),
                deliveries: Seq::empty(),
            },
        }
    }

    /// Whether the store carries out `operation`. A statement that the store
    /// refuses, and a step that a worker cannot take because it does not
    /// hold the task, leave the world as it is.
    pub open spec fn permits(self, operation: Operation) -> bool {
        match operation {
            Operation::EnqueueIssue { claim, issue_id, issue } => self.db.can_stage(claim, issue_id),
            Operation::SaveResponse { claim, response } => self.db.in_progress(claim),
            Operation::Dequeue { task, worker } => self.db.is_available(task),
            Operation::Deliver { task, worker, delivered } => self.db.is_held_by(task, worker)
                && is_email_address(task.1),
            Operation::Discard { task, worker } => self.db.is_held_by(task, worker)
                && !is_email_address(task.1),
            Operation::Abandon { task, worker } => self.db.is_held_by(task, worker),
            _ => true,
        }
    }

    /// The world after `operation`.
    pub open spec fn apply(self, operation: Operation) -> World {
        if !self.permits(operation) {
            self
        } else {
            match operation {
                Operation::InsertSubscriber { email } => World {
                    db: self.db.insert_subscriber(email),
                    ..self
                },
                Operation::ConfirmSubscriber { email } => World {
                    db: self.db.confirm_subscriber(email),
                    ..self
                },
                Operation::Claim { claim, now } => World { db: self.db.claim(claim, now), ..self },
                Operation::EnqueueIssue { claim, issue_id, issue } => World {
                    db: self.db.stage(claim, issue_id, issue),
                    ..self
                },
                Operation::SaveResponse { claim, response } => World {
                    db: self.db.commit(claim, response),
                    ledger: match self.db.staged(claim) {
                        Some(staged) => Ledger {
                            enqueued: self.ledger.enqueued.insert(
                                staged.issue_id,
                                staged.recipients,
                            ),
                            ..self.ledger
                        },
                        None => self.ledger,
                    },
                },
                Operation::Rollback { claim } => World { db: self.db.rollback(claim), ..self },
                Operation::RemoveOldEntries { now } => World {
                    db: self.db.remove_old_entries(now),
                    ..self
                },
                Operation::Dequeue { task, worker } => World {
                    db: self.db.lock(task, worker),
                    ..self
                },
                Operation::Deliver { task, worker, delivered } => if delivered {
                    World {
                        db: self.db.delete_task(task),
                        ledger: Ledger {
                            settled: self.ledger.settled.insert(task),
                            attempts: self.ledger.attempts.push(task),
                            deliveries: self.ledger.deliveries.push(task),
                            ..self.ledger
                        },
                    }
                } else {
                    World {
                        db: self.db.release_task(task),
                        ledger: Ledger {
                            attempts: self.ledger.attempts.push(task),
                            ..self.ledger
                        },
                    }
                },
                Operation::Discard { task, worker } => World {
                    db: self.db.delete_task(task),
                    ledger: Ledger { settled: self.ledger.settled.insert(task), ..self.ledger },
                },
                Operation::Abandon { task, worker } => World {
                    db: self.db.release_task(task),
                    ..self
                },
            }
        }
    }

    /// The world after the operations of `history`, in order.
    pub open spec fn run(self, history: Seq<Operation>) -> World
        decreases history.len(),
    {
        if history.len() == 0 {
            self
        } else {
            self.run(history.drop_last()).apply(history.last())
        }
    }

    /// The tasks of `issue_id` that a worker has deleted, by address.
    pub open spec fn settled(self, issue_id: u128) -> Set<Seq<char>> {
        Set::new(|email: Seq<char>| self.ledger.settled.contains((issue_id, email)))
    }

    /// What holds of every world that the operations produce from an opening
    /// one: the store is well formed; no task is both pending and settled;
    /// the tasks of every issue, pending or settled, are those that were
    /// enqueued with it; every delivery settled its task, and no task was
    /// delivered twice; only well-formed addresses reached the transport.
    pub open spec fn sound(self) -> bool {
        &&& self.db.wf()
        &&& forall|task: TaskId| #[trigger]
            self.ledger.settled.contains(task) ==> !self.db.queue.contains_key(task)
                && self.db.issues.contains_key(task.0)
        &&& forall|issue_id: u128| #[trigger]
            self.db.issues.contains_key(issue_id) ==> self.ledger.enqueued.contains_key(issue_id)
        &&& forall|issue_id: u128, email: Seq<char>|
            self.db.issues.contains_key(issue_id) ==> (#[trigger] self.ledger.enqueued[issue_id].contains(
                email,
            ) <==> self.db.queue.contains_key((issue_id, email)) || self.ledger.settled.contains(
                (issue_id, email),
            ))
        &&& forall|i: int|
            0 <= i < self.ledger.deliveries.len() ==> self.ledger.settled.contains(
                #[trigger] self.ledger.deliveries[i],
            )
        &&& self.ledger.deliveries.no_duplicates()
        &&& forall|i: int|
            0 <= i < self.ledger.attempts.len() ==> is_email_address(
                (#[trigger] self.ledger.attempts[i]).1,
            )
    }

    /// An opening world is sound.
    pub proof fn lemma_opening_sound(db: DatabaseView)
        requires
            db.wf(),
        ensures
            World::opening(db).sound(),
    {
    }

    /// Every operation keeps the world sound.
    pub proof fn lemma_apply_sound(self, operation: Operation)
        requires
            self.sound(),
        ensures
            self.apply(operation).sound(),
    {
        let after = self.apply(operation);
        if self.permits(operation) {
            match operation {
                Operation::InsertSubscriber { email } => {
                    self.db.lemma_subscribers_wf(email);
                },
                Operation::ConfirmSubscriber { email } => {
                    self.db.lemma_subscribers_wf(email);
                },
                Operation::Claim { claim, now } => {
                    self.db.lemma_claim_wf(claim, now);
                },
                Operation::EnqueueIssue { claim, issue_id, issue } => {
                    self.db.lemma_stage_wf(claim, issue_id, issue);
                },
                Operation::SaveResponse { claim, response } => {
                    self.db.lemma_commit_wf(claim, response);
                    match self.db.staged(claim) {
                        Some(staged) => {
                            assert(crate::database::model::staged_under(self.db.idempotency, claim)
                                is Some);
                            assert(!self.db.issues.contains_key(staged.issue_id));
                            assert forall|issue_id: u128, email: Seq<char>|
                                after.db.issues.contains_key(issue_id) implies (
                            #[trigger] after.ledger.enqueued[issue_id].contains(email)
                                <==> after.db.queue.contains_key((issue_id, email))
                                || after.ledger.settled.contains((issue_id, email))) by {
                                if issue_id == staged.issue_id {
                                    if self.db.queue.contains_key((issue_id, email)) {
                                        assert(self.db.issues.contains_key(issue_id));
                                    }
                                    if self.ledger.settled.contains((issue_id, email)) {
                                        assert(self.db.issues.contains_key(issue_id));
                                    }
                                } else {
                                    assert(self.db.issues.contains_key(issue_id));
                                }
                            }
                            assert forall|task: TaskId| #[trigger]
                                after.ledger.settled.contains(task) implies !after.db.queue.contains_key(
                                task,
                            ) && after.db.issues.contains_key(task.0) by {
                                assert(self.ledger.settled.contains(task));
                            }
                        },
                        None => {},
                    }
                },
                Operation::Rollback { claim } => {
                    self.db.lemma_rollback_wf(claim);
                },
                Operation::RemoveOldEntries { now } => {
                    self.db.lemma_remove_old_entries_wf(now);
                },
                Operation::Dequeue { task, worker } => {
                    self.db.lemma_queue_wf(task, worker);
                },
                Operation::Deliver { task, worker, delivered } => {
                    self.db.lemma_queue_wf(task, worker);
                    if delivered {
                        assert forall|i: int, j: int|
                            0 <= i < after.ledger.deliveries.len() && 0 <= j
                                < after.ledger.deliveries.len() && i
                                != j implies after.ledger.deliveries[i]
                            != after.ledger.deliveries[j] by {
                            if i < self.ledger.deliveries.len() {
                                assert(self.ledger.settled.contains(self.ledger.deliveries[i]));
                            }
                            if j < self.ledger.deliveries.len() {
                                assert(self.ledger.settled.contains(self.ledger.deliveries[j]));
                            }
                        }
                    }
                },
                Operation::Discard { task, worker } => {
                    self.db.lemma_queue_wf(task, worker);
                },
                Operation::Abandon { task, worker } => {
                    self.db.lemma_queue_wf(task, worker);
                },
            }
        }
    }

    /// Every history keeps the world sound.
    pub proof fn lemma_run_sound(self, history: Seq<Operation>)
        requires
            self.sound(),
        ensures
            self.run(history).sound(),
        decreases history.len(),
    {
        if history.len() > 0 {
            self.lemma_run_sound(history.drop_last());
            self.run(history.drop_last()).lemma_apply_sound(history.last());
        }
    }
}

} // verus!
