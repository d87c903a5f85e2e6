//! The store as mathematics: each table a map from its primary key, and each
//! statement that the service issues a function from store to store.

use crate::idempotency::persistence::ResponseView;
use vstd::prelude::*;

verus! {

/// Seconds for which an idempotency record is kept: five days.
pub const RETENTION_SECONDS: i64 = 432000;

/// The primary key of an idempotency record: the operator and the key's characters.
pub type ClaimId = (u128, Seq<char>);

/// The primary key of a delivery task: the issue and the recipient's address.
pub type TaskId = (u128, Seq<char>);

/// The content of a newsletter issue.
pub struct IssueView {
    pub title: Seq<char>,
    pub text_content: Seq<char>,
    pub html_content: Seq<char>,
    pub published_at: i64,
}

/// What an open publish transaction has written and not yet committed: the
/// issue, and the addresses that were confirmed when it was written.
pub struct StagedView {
    pub issue_id: u128,
    pub issue: IssueView,
    pub recipients: Set<Seq<char>>,
}

/// Where the request that claimed an idempotency key stands.
pub enum RecordState {
    /// Claimed; the claimant has not committed. Holds what it has staged.
    InProgress(Option<StagedView>),
    /// Committed together with the response that every repeat receives.
    Completed(ResponseView),
}

/// An idempotency record without its key.
pub struct RecordView {
    pub created_at: i64,
    pub state: RecordState,
}

/// The whole store.
pub struct DatabaseView {
    /// Address of each subscriber, and whether it is confirmed.
    pub subscribers: Map<Seq<char>, bool>,
    /// Idempotency records.
    pub idempotency: Map<ClaimId, RecordView>,
    /// Committed newsletter issues by id.
    pub issues: Map<u128, IssueView>,
    /// Pending delivery tasks, each with the worker that holds its lock.
    pub queue: Map<TaskId, Option<u64>>,
}

/// Whether a record created at `created_at` is older at `now` than the
/// retention window.
pub open spec fn is_expired(created_at: i64, now: i64) -> bool {
    created_at + RETENTION_SECONDS < now
}

/// What the transaction that claimed `claim` has staged according to the
/// idempotency records `records`, if anything.
pub open spec fn staged_under(records: Map<ClaimId, RecordView>, claim: ClaimId) -> Option<
    StagedView,
> {
    if records.contains_key(claim) {
        match records[claim].state {
            RecordState::InProgress(staged) => staged,
            RecordState::Completed(_) => None,
        }
    } else {
        None
    }
}

/// The queue `queue` after a task of the issue `issue_id` has been added for
/// each address in `recipients`, none of them locked.
pub open spec fn queue_with(
    queue: Map<TaskId, Option<u64>>,
    issue_id: u128,
    recipients: Set<Seq<char>>,
) -> Map<TaskId, Option<u64>> {
    Map::new(
        |task: TaskId| queue.contains_key(task) || (task.0 == issue_id && recipients.contains(task.1)),
        |task: TaskId|
            if queue.contains_key(task) {
                queue[task]
            } else {
                None
            },
    )
}

impl DatabaseView {
    /// The store with nothing in it.
    pub open spec fn empty() -> DatabaseView {
        DatabaseView {
            subscribers: Map::empty(),
            idempotency: Map::empty(),
            issues: Map::empty(),
            queue: Map::empty(),
        }
    }

    /// What the transaction that claimed `claim` has staged, if anything.
    pub open spec fn staged(self, claim: ClaimId) -> Option<StagedView> {
        staged_under(self.idempotency, claim)
    }

    /// Whether some open transaction has staged an issue under `issue_id`.
    pub open spec fn is_staged(self, issue_id: u128) -> bool {
        exists|claim: ClaimId|
            (#[trigger] staged_under(self.idempotency, claim)) matches Some(s) && s.issue_id
                == issue_id
    }

    /// What holds of every store that the operations below produce from the
    /// empty one: every task belongs to a committed issue, and the issues
    /// that open transactions have staged have ids that no committed issue
    /// and no other transaction uses.
    pub open spec fn wf(self) -> bool {
        &&& forall|task: TaskId| #[trigger]
            self.queue.contains_key(task) ==> self.issues.contains_key(task.0)
        &&& forall|claim: ClaimId|
            (#[trigger] staged_under(self.idempotency, claim)) matches Some(s)
                ==> !self.issues.contains_key(s.issue_id)
        &&& forall|a: ClaimId, b: ClaimId|
            (#[trigger] staged_under(self.idempotency, a)) matches Some(s) && (
            #[trigger] staged_under(self.idempotency, b)) matches Some(t) && s.issue_id
                == t.issue_id ==> a == b
    }

    // ---- subscribers ----
    /// Adds `email` as an unconfirmed subscriber unless it is one already.
    pub open spec fn insert_subscriber(self, email: Seq<char>) -> DatabaseView {
        if self.subscribers.contains_key(email) {
            self
        } else {
            DatabaseView { subscribers: self.subscribers.insert(email, false), ..self }
        }
    }

    /// Marks the subscriber `email` as confirmed, if there is one.
    pub open spec fn confirm_subscriber(self, email: Seq<char>) -> DatabaseView {
        if self.subscribers.contains_key(email) {
            DatabaseView { subscribers: self.subscribers.insert(email, true), ..self }
        } else {
            self
        }
    }

    /// The addresses of the confirmed subscribers.
    pub open spec fn confirmed(self) -> Set<Seq<char>> {
        Set::new(|email: Seq<char>| self.subscribers.contains_key(email) && self.subscribers[email])
    }

    // ---- idempotency ----
    /// Whether `claim` is free: no request has claimed it, or the record is gone.
    pub open spec fn is_free(self, claim: ClaimId) -> bool {
        !self.idempotency.contains_key(claim)
    }

    /// Whether `claim` is taken by a request that has not committed.
    pub open spec fn in_progress(self, claim: ClaimId) -> bool {
        self.idempotency.contains_key(claim) && self.idempotency[claim].state is InProgress
    }

    /// Insert-if-absent of an empty record: the first writer wins.
    pub open spec fn claim(self, claim: ClaimId, now: i64) -> DatabaseView {
        if self.is_free(claim) {
            DatabaseView {
                idempotency: self.idempotency.insert(
                    claim,
                    RecordView { created_at: now, state: RecordState::InProgress(None) },
                ),
                ..self
            }
        } else {
            self
        }
    }

    /// The response cached under `claim`: `None` while there is no record or
    /// its claimant has not committed.
    pub open spec fn saved_response(self, claim: ClaimId) -> Option<ResponseView> {
        if self.idempotency.contains_key(claim) {
            match self.idempotency[claim].state {
                RecordState::InProgress(_) => None,
                RecordState::Completed(response) => Some(response),
            }
        } else {
            None
        }
    }

    /// Whether the transaction that holds `claim` can write an issue under
    /// `issue_id`: the claim is in progress with nothing staged, and the id is
    /// neither committed nor staged by another transaction.
    pub open spec fn can_stage(self, claim: ClaimId, issue_id: u128) -> bool {
        &&& self.in_progress(claim)
        &&& self.staged(claim) is None
        &&& !self.issues.contains_key(issue_id)
        &&& !self.is_staged(issue_id)
    }

    /// Writes the issue and, for each address confirmed now, a delivery task,
    /// inside the transaction that holds `claim`. Nothing of it is visible
    /// before the commit.
    pub open spec fn stage(self, claim: ClaimId, issue_id: u128, issue: IssueView) -> DatabaseView {
        DatabaseView {
            idempotency: self.idempotency.insert(
                claim,
                RecordView {
                    created_at: self.idempotency[claim].created_at,
                    state: RecordState::InProgress(
                        Some(StagedView { issue_id, issue, recipients: self.confirmed() }),
                    ),
                },
            ),
            ..self
        }
    }

    /// Stores `response` under `claim` and commits: the record is completed,
    /// and the staged issue, if any, appears together with all its tasks.
    pub open spec fn commit(self, claim: ClaimId, response: ResponseView) -> DatabaseView {
        let completed = self.idempotency.insert(
            claim,
            RecordView {
                created_at: self.idempotency[claim].created_at,
                state: RecordState::Completed(response),
            },
        );
        match self.staged(claim) {
            Some(staged) => DatabaseView {
                idempotency: completed,
                issues: self.issues.insert(staged.issue_id, staged.issue),
                queue: queue_with(self.queue, staged.issue_id, staged.recipients),
                ..self
            },
            None => DatabaseView { idempotency: completed, ..self },
        }
    }

    /// Abandons the transaction that holds `claim`: the claim and whatever
    /// was staged under it are gone. A completed record stays.
    pub open spec fn rollback(self, claim: ClaimId) -> DatabaseView {
        if self.in_progress(claim) {
            DatabaseView { idempotency: self.idempotency.remove(claim), ..self }
        } else {
            self
        }
    }

    /// Whether the record under `claim` is one that the reaper removes at
    /// `now`: any record older than the retention window, with or without a
    /// response.
    pub open spec fn is_reaped(self, claim: ClaimId, now: i64) -> bool {
        self.idempotency.contains_key(claim) && is_expired(
            self.idempotency[claim].created_at,
            now,
        )
    }

    /// Removes every record that is older than the retention window,
    /// whatever its state, and with it what was staged under it.
    pub open spec fn remove_old_entries(self, now: i64) -> DatabaseView {
        DatabaseView {
            idempotency: Map::new(
                |claim: ClaimId| self.idempotency.contains_key(claim) && !self.is_reaped(claim, now),
                |claim: ClaimId| self.idempotency[claim],
            ),
            ..self
        }
    }

    // ---- delivery queue ----
    /// Whether `task` is pending and no worker holds it.
    pub open spec fn is_available(self, task: TaskId) -> bool {
        self.queue.contains_key(task) && self.queue[task] is None
    }

    /// Whether `worker` holds the lock on `task`.
    pub open spec fn is_held_by(self, task: TaskId, worker: u64) -> bool {
        self.queue.contains_key(task) && self.queue[task] == Some(worker)
    }

    /// `worker` takes the lock on `task`.
    pub open spec fn lock(self, task: TaskId, worker: u64) -> DatabaseView {
        DatabaseView { queue: self.queue.insert(task, Some(worker)), ..self }
    }

    /// Deletes `task` and commits: the task is done.
    pub open spec fn delete_task(self, task: TaskId) -> DatabaseView {
        DatabaseView { queue: self.queue.remove(task), ..self }
    }

    /// Commits without deleting: `task` stays pending and its lock is free.
    pub open spec fn release_task(self, task: TaskId) -> DatabaseView {
        if self.queue.contains_key(task) {
            DatabaseView { queue: self.queue.insert(task, None), ..self }
        } else {
            self
        }
    }

    /// The addresses for which a task of `issue_id` is pending.
    pub open spec fn pending(self, issue_id: u128) -> Set<Seq<char>> {
        Set::new(|email: Seq<char>| self.queue.contains_key((issue_id, email)))
    }
}

/// Every operation on the store keeps it well formed.
impl DatabaseView {
    pub proof fn lemma_empty_wf()
        ensures
            DatabaseView::empty().wf(),
    {
    }

    pub proof fn lemma_subscribers_wf(self, email: Seq<char>)
        requires
            self.wf(),
        ensures
            self.insert_subscriber(email).wf(),
            self.confirm_subscriber(email).wf(),
    {
    }

    pub proof fn lemma_claim_wf(self, claim: ClaimId, now: i64)
        requires
            self.wf(),
        ensures
            self.claim(claim, now).wf(),
    {
        let after = self.claim(claim, now);
        assert forall|c: ClaimId| #[trigger]
            staged_under(after.idempotency, c) is Some implies staged_under(after.idempotency, c)
            == staged_under(self.idempotency, c) by {}
    }

    pub proof fn lemma_stage_wf(self, claim: ClaimId, issue_id: u128, issue: IssueView)
        requires
            self.wf(),
            self.can_stage(claim, issue_id),
        ensures
            self.stage(claim, issue_id, issue).wf(),
    {
        let after = self.stage(claim, issue_id, issue);
        assert forall|c: ClaimId| c != claim implies #[trigger] staged_under(after.idempotency, c)
            == staged_under(self.idempotency, c) by {}
        assert(staged_under(after.idempotency, claim) matches Some(s) && s.issue_id == issue_id);
        assert forall|a: ClaimId, b: ClaimId|
            (#[trigger] staged_under(after.idempotency, a)) matches Some(s) && (
            #[trigger] staged_under(after.idempotency, b)) matches Some(t) && s.issue_id
                == t.issue_id implies a == b by {
            if a != claim && b == claim {
                assert(staged_under(self.idempotency, a) is Some);
            }
            if a == claim && b != claim {
                assert(staged_under(self.idempotency, b) is Some);
            }
        }
    }

    pub proof fn lemma_commit_wf(self, claim: ClaimId, response: ResponseView)
        requires
            self.wf(),
            self.in_progress(claim),
        ensures
            self.commit(claim, response).wf(),
    {
        let after = self.commit(claim, response);
        assert forall|c: ClaimId| c != claim implies #[trigger] staged_under(after.idempotency, c)
            == staged_under(self.idempotency, c) by {}
        assert(staged_under(after.idempotency, claim) is None);
        match self.staged(claim) {
            Some(staged) => {
                assert forall|c: ClaimId| #[trigger]
                    staged_under(after.idempotency, c) is Some implies !after.issues.contains_key(
                    staged_under(after.idempotency, c).unwrap().issue_id,
                ) by {
                    assert(staged_under(self.idempotency, c) is Some);
                    assert(staged_under(self.idempotency, claim) is Some);
                }
            },
            None => {},
        }
    }

    pub proof fn lemma_rollback_wf(self, claim: ClaimId)
        requires
            self.wf(),
        ensures
            self.rollback(claim).wf(),
    {
        let after = self.rollback(claim);
        assert forall|c: ClaimId| #[trigger]
            staged_under(after.idempotency, c) is Some implies staged_under(after.idempotency, c)
            == staged_under(self.idempotency, c) by {}
    }

    pub proof fn lemma_remove_old_entries_wf(self, now: i64)
        requires
            self.wf(),
        ensures
            self.remove_old_entries(now).wf(),
    {
        let after = self.remove_old_entries(now);
        assert forall|c: ClaimId| #[trigger]
            staged_under(after.idempotency, c) is Some implies staged_under(after.idempotency, c)
            == staged_under(self.idempotency, c) by {}
    }

    pub proof fn lemma_queue_wf(self, task: TaskId, worker: u64)
        requires
            self.wf(),
            self.queue.contains_key(task),
        ensures
            self.lock(task, worker).wf(),
            self.delete_task(task).wf(),
            self.release_task(task).wf(),
    {
    }
}

} // verus!
