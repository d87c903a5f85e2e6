//! The store in memory: four tables, each a list of rows with distinct keys.

use crate::database::model::{
    is_expired, queue_with, staged_under, ClaimId, DatabaseView, RecordState, RecordView, TaskId,
    RETENTION_SECONDS,
};
use crate::database::rows::{
    addresses, claim_entries, distinct_addresses, issue_entries, lemma_addresses_push,
    queue_entries,
    subscriber_entries, ClaimRow, EmailTask, IssueRow, NewsletterIssue, Progress, QueueRow,
    StagedIssue, SubscriberRow,
};
use crate::database::table::{
    as_map, distinct_keys, lemma_len, lemma_missing, lemma_push, lemma_remove, lemma_row,
    lemma_update,
};
use crate::idempotency::key::IdempotencyKey;
use crate::idempotency::persistence::CachedResponse;
use vstd::prelude::*;
use vstd::string::*;

verus! {

/// The relational store that the publish endpoint, the delivery worker and
/// the reaper share, held in memory.
pub struct Database {
    subscribers: Vec<SubscriberRow>,
    idempotency: Vec<ClaimRow>,
    issues: Vec<IssueRow>,
    queue: Vec<QueueRow>,
}

impl View for Database {
    type V = DatabaseView;

    closed spec fn view(&self) -> DatabaseView {
        DatabaseView {
            subscribers: as_map(subscriber_entries(self.subscribers@)),
            idempotency: as_map(claim_entries(self.idempotency@)),
            issues: as_map(issue_entries(self.issues@)),
            queue: as_map(queue_entries(self.queue@)),
        }
    }
}

/// Why an issue could not be written.
#[derive(Debug, Clone, Copy, PartialEq, Eq, Structural)]
pub enum EnqueueError {
    /// The key is not claimed and in progress, or holds a staged issue already.
    NoOpenTransaction,
    /// An issue with this id is committed or staged.
    IssueExists,
}

/// Why a response could not be stored.
#[derive(Debug, Clone, Copy, PartialEq, Eq, Structural)]
pub enum SaveError {
    /// The key is not claimed, or its record is completed already.
    NoOpenTransaction,
}

/// The transaction behind `row` has staged no address twice.
pub(crate) open spec fn staged_distinct(row: ClaimRow) -> bool {
    row.progress matches Progress::InProgress(Some(staged)) ==> distinct_addresses(
        staged.recipients@,
    )
}

impl Database {
    /// No table holds two rows under one key, no transaction has staged an
    /// address twice, and the store as a whole is well formed.
    pub closed spec fn wf(&self) -> bool {
        &&& distinct_keys(subscriber_entries(self.subscribers@))
        &&& distinct_keys(claim_entries(self.idempotency@))
        &&& distinct_keys(issue_entries(self.issues@))
        &&& distinct_keys(queue_entries(self.queue@))
        &&& forall|i: int|
            0 <= i < self.idempotency.len() ==> staged_distinct(#[trigger] self.idempotency[i])
        &&& self@.wf()
    }

    /// A well-formed store is well formed as a model.
    pub proof fn lemma_wf(&self)
        requires
            self.wf(),
        ensures
            self@.wf(),
    {
    }

    /// A store with no rows.
    pub fn new() -> (db: Database)
        ensures
            db.wf(),
            db@ == DatabaseView::empty(),
    {
        let db = Database {
            subscribers: Vec::new(),
            idempotency: Vec::new(),
            issues: Vec::new(),
            queue: Vec::new(),
        };
        assert(db@.subscribers =~= Map::empty());
        assert(db@.idempotency =~= Map::empty());
        assert(db@.issues =~= Map::empty());
        assert(db@.queue =~= Map::empty());
        db
    }

    fn find_subscriber(&self, email: &String) -> (found: Option<usize>)
        ensures
            match found {
                Some(i) => i < self.subscribers.len() && self.subscribers[i as int].email@
                    == email@,
                None => forall|i: int|
                    0 <= i < self.subscribers.len() ==> (#[trigger] self.subscribers[i]).email@
                        != email@,
            },
    {
        let mut i: usize = 0;
        while i < self.subscribers.len()
            invariant
                0 <= i <= self.subscribers.len(),
                forall|j: int| 0 <= j < i ==> (#[trigger] self.subscribers[j]).email@ != email@,
            decreases self.subscribers.len() - i,
        {
            if self.subscribers[i].email == *email {
                return Some(i);
            }
            i += 1;
        }
        None
    }

    /// Adds `email` as a subscriber awaiting confirmation. Leaves the store
    /// unchanged and returns `false` where the address is already there.
    pub fn insert_subscriber(&mut self, email: &str) -> (inserted: bool)
        requires
            old(self).wf(),
        ensures
            final(self).wf(),
            final(self)@ == old(self)@.insert_subscriber(email@),
            inserted == !old(self)@.subscribers.contains_key(email@),
    {
        let email = email.to_owned();
        let ghost before = subscriber_entries(self.subscribers@);
        match self.find_subscriber(&email) {
            Some(i) => {
                proof {
                    lemma_row(before, i as int);
                }
                false
            },
            None => {
                let ghost address = email@;
                proof {
                    lemma_missing(before, address);
                    lemma_push(before, address, false);
                }
                self.subscribers.push(SubscriberRow { email, confirmed: false });
                assert(subscriber_entries(self.subscribers@) =~= before.push((address, false)));
                assert(self@.queue == old(self)@.queue);
                assert(self@.issues == old(self)@.issues);
                true
            },
        }
    }

    /// Marks the subscriber `email` as confirmed. Leaves the store unchanged
    /// and returns `false` where there is no such subscriber.
    pub fn confirm_subscriber(&mut self, email: &str) -> (found: bool)
        requires
            old(self).wf(),
        ensures
            final(self).wf(),
            final(self)@ == old(self)@.confirm_subscriber(email@),
            found == old(self)@.subscribers.contains_key(email@),
    {
        let email = email.to_owned();
        let ghost before = subscriber_entries(self.subscribers@);
        match self.find_subscriber(&email) {
            Some(i) => {
                let ghost address = email@;
                proof {
                    lemma_row(before, i as int);
                    lemma_update(before, i as int, true);
                }
                self.subscribers.set(i, SubscriberRow { email, confirmed: true });
                assert(subscriber_entries(self.subscribers@) =~= before.update(
                    i as int,
                    (address, true),
                ));
                true
            },
            None => {
                proof {
                    lemma_missing(before, email@);
                }
                false
            },
        }
    }

    /// The addresses of the confirmed subscribers, each once.
    pub fn get_confirmed_subscribers(&self) -> (confirmed: Vec<String>)
        requires
            self.wf(),
        ensures
            distinct_addresses(confirmed@),
            addresses(confirmed@) == self@.confirmed(),
    {
        let ghost entries = subscriber_entries(self.subscribers@);
        let ghost mut source: Seq<int> = Seq::empty();
        let ghost mut target: Seq<int> = Seq::empty();
        let mut confirmed: Vec<String> = Vec::new();
        let mut i: usize = 0;
        while i < self.subscribers.len()
            invariant
                0 <= i <= self.subscribers.len(),
                entries == subscriber_entries(self.subscribers@),
                distinct_keys(entries),
                source.len() == confirmed.len(),
                target.len() == i,
                forall|a: int|
                    0 <= a < confirmed.len() ==> 0 <= #[trigger] source[a] < i
                        && self.subscribers[source[a]].confirmed
                        && self.subscribers[source[a]].email@ == confirmed[a]@,
                forall|j: int|
                    0 <= j < i && self.subscribers[j].confirmed ==> 0 <= #[trigger] target[j]
                        < confirmed.len() && confirmed[target[j]]@ == self.subscribers[j].email@,
                distinct_addresses(confirmed@),
            decreases self.subscribers.len() - i,
        {
            if self.subscribers[i].confirmed {
                let email = self.subscribers[i].email.clone();
                proof {
                    assert forall|a: int| 0 <= a < confirmed.len() implies (#[trigger] confirmed[a])@
                        != email@ by {
                        assert(entries[source[a]].0 != entries[i as int].0);
                    }
                    source = source.push(i as int);
                    target = target.push(confirmed.len() as int);
                }
                confirmed.push(email);
            } else {
                proof {
                    target = target.push(0);
                }
            }
            i += 1;
        }
        proof {
            assert forall|email: Seq<char>| addresses(confirmed@).contains(email)
                <==> self@.confirmed().contains(email) by {
                if addresses(confirmed@).contains(email) {
                    let a = choose|a: int|
                        0 <= a < confirmed.len() && (#[trigger] confirmed[a])@ == email;
                    lemma_row(entries, source[a]);
                }
                if self@.confirmed().contains(email) {
                    let j = crate::database::table::position(entries, email);
                    lemma_row(entries, j);
                    assert(self.subscribers[j].confirmed);
                    assert(confirmed[target[j]]@ == email);
                }
            }
            assert(addresses(confirmed@) =~= self@.confirmed());
        }
        confirmed
    }

    fn find_claim(&self, user_id: u128, key: &String) -> (found: Option<usize>)
        ensures
            match found {
                Some(i) => i < self.idempotency.len() && self.idempotency[i as int].entry().0 == (
                    user_id,
                    key@,
                ),
                None => forall|i: int|
                    0 <= i < self.idempotency.len() ==> (#[trigger] self.idempotency[i]).entry().0
                        != (user_id, key@),
            },
    {
        let mut i: usize = 0;
        while i < self.idempotency.len()
            invariant
                0 <= i <= self.idempotency.len(),
                forall|j: int|
                    0 <= j < i ==> (#[trigger] self.idempotency[j]).entry().0 != (user_id, key@),
            decreases self.idempotency.len() - i,
        {
            if self.idempotency[i].user_id == user_id && self.idempotency[i].key == *key {
                return Some(i);
            }
            i += 1;
        }
        None
    }

    /// Claims `key` for `user_id`: inserts an empty record unless there is
    /// one. Returns the number of rows inserted, 1 for the first claimant and
    /// 0 for everyone after.
    pub fn claim(&mut self, key: &IdempotencyKey, user_id: u128, now: i64) -> (rows: u64)
        requires
            old(self).wf(),
        ensures
            final(self).wf(),
            final(self)@ == old(self)@.claim((user_id, key@), now),
            rows == (if old(self)@.is_free((user_id, key@)) {
                1u64
            } else {
                0u64
            }),
    {
        let owned = key.as_ref().to_owned();
        let ghost before = claim_entries(self.idempotency@);
        let ghost id = (user_id, key@);
        let ghost record = RecordView { created_at: now, state: RecordState::InProgress(None) };
        match self.find_claim(user_id, &owned) {
            Some(i) => {
                proof {
                    lemma_row(before, i as int);
                }
                0
            },
            None => {
                proof {
                    lemma_missing(before, id);
                    lemma_push(before, id, record);
                    self@.lemma_claim_wf(id, now);
                }
                self.idempotency.push(
                    ClaimRow {
                        user_id,
                        key: owned,
                        created_at: now,
                        progress: Progress::InProgress(None),
                    },
                );
                assert(claim_entries(self.idempotency@) =~= before.push((id, record)));
                assert(self@ == old(self)@.claim(id, now));
                1
            },
        }
    }

    /// The response cached under `key` for `user_id`: `None` where nobody has
    /// claimed the key or the claimant has not committed yet.
    pub fn get_saved_response(&self, key: &IdempotencyKey, user_id: u128) -> (saved: Option<
        CachedResponse,
    >)
        requires
            self.wf(),
        ensures
            saved is Some <==> self@.saved_response((user_id, key@)) is Some,
            saved matches Some(response) ==> self@.saved_response((user_id, key@)) == Some(
                response@,
            ),
    {
        let owned = key.as_ref().to_owned();
        let ghost before = claim_entries(self.idempotency@);
        match self.find_claim(user_id, &owned) {
            Some(i) => {
                proof {
                    lemma_row(before, i as int);
                }
                match &self.idempotency[i].progress {
                    Progress::Completed(response) => Some(response.clone()),
                    Progress::InProgress(_) => None,
                }
            },
            None => {
                proof {
                    lemma_missing(before, (user_id, key@));
                }
                None
            },
        }
    }

    /// Abandons the publish transaction that holds `key`: the claim and what
    /// was staged under it are gone. Does nothing where the key is free or its
    /// record completed. Returns whether a claim was dropped.
    pub fn rollback(&mut self, key: &IdempotencyKey, user_id: u128) -> (dropped: bool)
        requires
            old(self).wf(),
        ensures
            final(self).wf(),
            final(self)@ == old(self)@.rollback((user_id, key@)),
            dropped == old(self)@.in_progress((user_id, key@)),
    {
        let owned = key.as_ref().to_owned();
        let ghost before = claim_entries(self.idempotency@);
        let ghost id = (user_id, key@);
        match self.find_claim(user_id, &owned) {
            Some(i) => {
                proof {
                    lemma_row(before, i as int);
                }
                let in_progress = match &self.idempotency[i].progress {
                    Progress::InProgress(_) => true,
                    Progress::Completed(_) => false,
                };
                if in_progress {
                    proof {
                        lemma_remove(before, i as int);
                        self@.lemma_rollback_wf(id);
                    }
                    self.idempotency.remove(i);
                    assert(claim_entries(self.idempotency@) =~= before.remove(i as int));
                    assert(self@ == old(self)@.rollback(id));
                }
                in_progress
            },
            None => {
                proof {
                    lemma_missing(before, id);
                }
                false
            },
        }
    }

    fn find_issue(&self, issue_id: u128) -> (found: Option<usize>)
        ensures
            match found {
                Some(i) => i < self.issues.len() && self.issues[i as int].issue_id == issue_id,
                None => forall|i: int|
                    0 <= i < self.issues.len() ==> (#[trigger] self.issues[i]).issue_id
                        != issue_id,
            },
    {
        let mut i: usize = 0;
        while i < self.issues.len()
            invariant
                0 <= i <= self.issues.len(),
                forall|j: int| 0 <= j < i ==> (#[trigger] self.issues[j]).issue_id != issue_id,
            decreases self.issues.len() - i,
        {
            if self.issues[i].issue_id == issue_id {
                return Some(i);
            }
            i += 1;
        }
        None
    }

    fn has_staged(&self, issue_id: u128) -> (staged: bool)
        requires
            self.wf(),
        ensures
            staged == self@.is_staged(issue_id),
    {
        let ghost entries = claim_entries(self.idempotency@);
        let mut i: usize = 0;
        while i < self.idempotency.len()
            invariant
                0 <= i <= self.idempotency.len(),
                entries == claim_entries(self.idempotency@),
                distinct_keys(entries),
                forall|j: int|
                    0 <= j < i ==> !((#[trigger] entries[j]).1.state matches RecordState::InProgress(
                        Some(s),
                    ) && s.issue_id == issue_id),
            decreases self.idempotency.len() - i,
        {
            let hit = match &self.idempotency[i].progress {
                Progress::InProgress(Some(staged)) => staged.issue_id == issue_id,
                _ => false,
            };
            if hit {
                proof {
                    lemma_row(entries, i as int);
                    assert(staged_under(self@.idempotency, entries[i as int].0) is Some);
                }
                return true;
            }
            i += 1;
        }
        proof {
            if self@.is_staged(issue_id) {
                let claim = choose|claim: ClaimId|
                    (#[trigger] staged_under(self@.idempotency, claim)) matches Some(s)
                        && s.issue_id == issue_id;
                let p = crate::database::table::position(entries, claim);
                lemma_row(entries, p);
            }
        }
        false
    }

    /// Writes a new issue and one delivery task for each subscriber that is
    /// confirmed now, inside the publish transaction that holds `key`.
    /// Nothing of it is visible until `save_response` commits.
    ///
    /// Refused, with the store unchanged, where `key` is not claimed and in
    /// progress or something is staged under it already
    /// (`NoOpenTransaction`), else where `issue_id` is in use (`IssueExists`).
    pub fn enqueue_issue(
        &mut self,
        key: &IdempotencyKey,
        user_id: u128,
        issue_id: u128,
        issue: NewsletterIssue,
    ) -> (done: Result<(), EnqueueError>)
        requires
            old(self).wf(),
        ensures
            final(self).wf(),
            done is Ok <==> old(self)@.can_stage((user_id, key@), issue_id),
            done is Ok ==> final(self)@ == old(self)@.stage((user_id, key@), issue_id, issue@),
            done matches Err(error) ==> final(self)@ == old(self)@ && (error
                == EnqueueError::NoOpenTransaction <==> !(old(self)@.in_progress((user_id, key@))
                && old(self)@.staged((user_id, key@)) is None)),
    {
        let owned = key.as_ref().to_owned();
        let ghost before = claim_entries(self.idempotency@);
        let ghost id = (user_id, key@);
        let at = match self.find_claim(user_id, &owned) {
            Some(i) => i,
            None => {
                proof {
                    lemma_missing(before, id);
                }
                return Err(EnqueueError::NoOpenTransaction);
            },
        };
        proof {
            lemma_row(before, at as int);
        }
        let open = match &self.idempotency[at].progress {
            Progress::InProgress(None) => true,
            _ => false,
        };
        if !open {
            return Err(EnqueueError::NoOpenTransaction);
        }
        let ghost issues_before = issue_entries(self.issues@);
        match self.find_issue(issue_id) {
            Some(i) => {
                proof {
                    lemma_row(issues_before, i as int);
                }
                return Err(EnqueueError::IssueExists);
            },
            None => {
                proof {
                    lemma_missing(issues_before, issue_id);
                }
            },
        }
        if self.has_staged(issue_id) {
            return Err(EnqueueError::IssueExists);
        }
        let recipients = self.get_confirmed_subscribers();
        let created_at = self.idempotency[at].created_at;
        let ghost record = RecordView {
            created_at,
            state: RecordState::InProgress(
                Some(
                    crate::database::model::StagedView {
                        issue_id,
                        issue: issue@,
                        recipients: self@.confirmed(),
                    },
                ),
            ),
        };
        proof {
            lemma_update(before, at as int, record);
            self@.lemma_stage_wf(id, issue_id, issue@);
        }
        self.idempotency.set(
            at,
            ClaimRow {
                user_id,
                key: owned,
                created_at,
                progress: Progress::InProgress(Some(StagedIssue { issue_id, issue, recipients })),
            },
        );
        assert(claim_entries(self.idempotency@) =~= before.update(at as int, (id, record)));
        assert(self@ == old(self)@.stage(id, issue_id, issue@));
        Ok(())
    }

    /// Appends one unlocked task of `issue_id` for each address in `recipients`.
    fn push_tasks(&mut self, issue_id: u128, recipients: &Vec<String>)
        requires
            distinct_keys(queue_entries(old(self).queue@)),
            distinct_addresses(recipients@),
            forall|task: TaskId| #[trigger]
                old(self)@.queue.contains_key(task) ==> task.0 != issue_id,
        ensures
            distinct_keys(queue_entries(final(self).queue@)),
            final(self)@.queue == queue_with(old(self)@.queue, issue_id, addresses(recipients@)),
            final(self).subscribers == old(self).subscribers,
            final(self).idempotency == old(self).idempotency,
            final(self).issues == old(self).issues,
    {
        let ghost start = self@.queue;
        let mut j: usize = 0;
        assert(addresses(recipients@.take(0)) =~= Set::empty());
        assert(self@.queue =~= queue_with(start, issue_id, addresses(recipients@.take(0))));
        while j < recipients.len()
            invariant
                0 <= j <= recipients.len(),
                distinct_keys(queue_entries(self.queue@)),
                distinct_addresses(recipients@),
                forall|task: TaskId| #[trigger] start.contains_key(task) ==> task.0 != issue_id,
                self@.queue == queue_with(start, issue_id, addresses(recipients@.take(j as int))),
                self.subscribers == old(self).subscribers,
                self.idempotency == old(self).idempotency,
                self.issues == old(self).issues,
            decreases recipients.len() - j,
        {
            let email = recipients[j].clone();
            let ghost entries = queue_entries(self.queue@);
            let ghost task = (issue_id, email@);
            let ghost done = addresses(recipients@.take(j as int));
            proof {
                if done.contains(email@) {
                    let a = choose|a: int|
                        0 <= a < j && (#[trigger] recipients@.take(j as int)[a])@ == email@;
                    assert(recipients[a]@ != recipients[j as int]@);
                }
                assert(!self@.queue.contains_key(task));
                lemma_push(entries, task, None);
                lemma_addresses_push(recipients@.take(j as int), recipients[j as int]);
                assert(recipients@.take(j as int + 1) =~= recipients@.take(j as int).push(
                    recipients[j as int],
                ));
            }
            self.queue.push(QueueRow { issue_id, email, holder: None });
            assert(queue_entries(self.queue@) =~= entries.push((task, None)));
            assert(self@.queue =~= queue_with(
                start,
                issue_id,
                addresses(recipients@.take(j as int + 1)),
            ));
            j += 1;
        }
        assert(recipients@.take(recipients.len() as int) =~= recipients@);
    }

    /// Stores `response` under `key` and commits the publish transaction that
    /// holds the key: the record is completed and what was staged becomes
    /// visible, the issue together with all of its delivery tasks. Hands the
    /// response back.
    ///
    /// Refused, with the store unchanged, where `key` is not claimed and in
    /// progress.
    pub fn save_response(&mut self, key: &IdempotencyKey, user_id: u128, response: CachedResponse) -> (saved:
        Result<CachedResponse, SaveError>)
        requires
            old(self).wf(),
        ensures
            final(self).wf(),
            saved is Ok <==> old(self)@.in_progress((user_id, key@)),
            saved matches Ok(returned) ==> returned@ == response@ && final(self)@
                == old(self)@.commit((user_id, key@), response@),
            saved is Err ==> final(self)@ == old(self)@,
    {
        let owned = key.as_ref().to_owned();
        let ghost before = claim_entries(self.idempotency@);
        let ghost id = (user_id, key@);
        let at = match self.find_claim(user_id, &owned) {
            Some(i) => i,
            None => {
                proof {
                    lemma_missing(before, id);
                }
                return Err(SaveError::NoOpenTransaction);
            },
        };
        proof {
            lemma_row(before, at as int);
        }
        let open = match &self.idempotency[at].progress {
            Progress::InProgress(_) => true,
            Progress::Completed(_) => false,
        };
        if !open {
            return Err(SaveError::NoOpenTransaction);
        }
        let returned = response.clone();
        let ghost completed = RecordView {
            created_at: self.idempotency[at as int].created_at,
            state: RecordState::Completed(response@),
        };
        proof {
            lemma_remove(before, at as int);
            lemma_push(before.remove(at as int), id, completed);
            self@.lemma_commit_wf(id, response@);
            assert(self@.staged(id) == staged_under(self@.idempotency, id));
        }
        let row = self.idempotency.remove(at);
        self.idempotency.push(
            ClaimRow {
                user_id,
                key: owned,
                created_at: row.created_at,
                progress: Progress::Completed(response),
            },
        );
        assert(claim_entries(self.idempotency@) =~= before.remove(at as int).push((id, completed)));
        assert(self@.idempotency =~= old(self)@.idempotency.insert(id, completed));
        assert(staged_distinct(row));
        match row.progress {
            Progress::InProgress(Some(staged)) => {
                let ghost issues_before = issue_entries(self.issues@);
                proof {
                    lemma_push(issues_before, staged.issue_id, staged.issue@);
                }
                let issue_id = staged.issue_id;
                self.issues.push(IssueRow { issue_id, issue: staged.issue });
                assert(issue_entries(self.issues@) =~= issues_before.push(
                    (issue_id, staged.issue@),
                ));
                self.push_tasks(issue_id, &staged.recipients);
                assert(self@ == old(self)@.commit(id, returned@));
            },
            _ => {
                assert(self@ == old(self)@.commit(id, returned@));
            },
        }
        Ok(returned)
    }

    /// Deletes every idempotency record that is older than the retention
    /// window of five days, with or without a response. Younger records and
    /// everything else stay as they are.
    pub fn remove_old_idempotency_entries(&mut self, now: i64)
        requires
            old(self).wf(),
        ensures
            final(self).wf(),
            final(self)@ == old(self)@.remove_old_entries(now),
    {
        let ghost start = self@.idempotency;
        let mut i: usize = 0;
        while i < self.idempotency.len()
            invariant
                0 <= i <= self.idempotency.len(),
                distinct_keys(claim_entries(self.idempotency@)),
                forall|j: int|
                    0 <= j < self.idempotency.len() ==> staged_distinct(
                        #[trigger] self.idempotency[j],
                    ),
                self.subscribers == old(self).subscribers,
                self.issues == old(self).issues,
                self.queue == old(self).queue,
                forall|c: ClaimId| #[trigger]
                    self@.idempotency.contains_key(c) ==> start.contains_key(c)
                        && self@.idempotency[c] == start[c],
                forall|c: ClaimId|
                    start.contains_key(c) && !is_expired(start[c].created_at, now)
                        ==> #[trigger] self@.idempotency.contains_key(c),
                forall|j: int|
                    0 <= j < i ==> !is_expired(
                        (#[trigger] claim_entries(self.idempotency@)[j]).1.created_at,
                        now,
                    ),
            decreases self.idempotency.len() - i,
        {
            let stale = (self.idempotency[i].created_at as i128) + (RETENTION_SECONDS as i128) < (
            now as i128);
            let ghost entries = claim_entries(self.idempotency@);
            let ghost current = self@.idempotency;
            proof {
                lemma_row(entries, i as int);
                assert(stale == is_expired(entries[i as int].1.created_at, now));
            }
            if stale {
                proof {
                    lemma_remove(entries, i as int);
                }
                self.idempotency.remove(i);
                assert(claim_entries(self.idempotency@) =~= entries.remove(i as int));
                assert(self@.idempotency == current.remove(entries[i as int].0));
                assert forall|c: ClaimId|
                    start.contains_key(c) && !is_expired(start[c].created_at, now)
                    implies #[trigger] self@.idempotency.contains_key(c) by {
                    assert(current.contains_key(c));
                }
                assert forall|j: int| 0 <= j < i implies !is_expired(
                    (#[trigger] claim_entries(self.idempotency@)[j]).1.created_at,
                    now,
                ) by {
                    assert(claim_entries(self.idempotency@)[j] == entries[j]);
                }
            } else {
                i += 1;
            }
        }
        proof {
            let entries = claim_entries(self.idempotency@);
            assert forall|c: ClaimId| #[trigger]
                self@.idempotency.contains_key(c) implies !is_expired(start[c].created_at, now) by {
                let p = crate::database::table::position(entries, c);
                lemma_row(entries, p);
            }
            assert(self@.idempotency =~= old(self)@.remove_old_entries(now).idempotency);
            old(self)@.lemma_remove_old_entries_wf(now);
        }
    }

    /// Selects one pending task that no worker holds, and locks it for
    /// `worker`. Tasks that are locked are skipped. Which of several free
    /// tasks is taken is not fixed. `None` where no task is free.
    pub fn dequeue_task(&mut self, worker: u64) -> (taken: Option<EmailTask>)
        requires
            old(self).wf(),
        ensures
            final(self).wf(),
            match taken {
                Some(task) => old(self)@.is_available(task@) && final(self)@ == old(self)@.lock(
                    task@,
                    worker,
                ),
                None => final(self)@ == old(self)@ && forall|task: TaskId|
                    !#[trigger] old(self)@.is_available(task),
            },
    {
        let ghost entries = queue_entries(self.queue@);
        let mut i: usize = 0;
        while i < self.queue.len()
            invariant
                0 <= i <= self.queue.len(),
                *self == *old(self),
                self.wf(),
                entries == queue_entries(self.queue@),
                forall|j: int| 0 <= j < i ==> (#[trigger] self.queue[j]).holder is Some,
            decreases self.queue.len() - i,
        {
            if self.queue[i].holder.is_none() {
                let email = self.queue[i].email.clone();
                let issue_id = self.queue[i].issue_id;
                let task = EmailTask { issue_id, email: self.queue[i].email.clone() };
                proof {
                    lemma_row(entries, i as int);
                    lemma_update(entries, i as int, Some(worker));
                    self@.lemma_queue_wf(task@, worker);
                }
                self.queue.set(i, QueueRow { issue_id, email, holder: Some(worker) });
                assert(queue_entries(self.queue@) =~= entries.update(
                    i as int,
                    (task@, Some(worker)),
                ));
                assert(self@ == old(self)@.lock(task@, worker));
                return Some(task);
            }
            i += 1;
        }
        proof {
            assert forall|task: TaskId| !#[trigger] self@.is_available(task) by {
                if self@.queue.contains_key(task) {
                    let p = crate::database::table::position(entries, task);
                    lemma_row(entries, p);
                    assert(self.queue[p].holder is Some);
                }
            }
        }
        None
    }

    /// The content of the issue `issue_id`, if it is committed.
    pub fn get_issue(&self, issue_id: u128) -> (issue: Option<NewsletterIssue>)
        requires
            self.wf(),
        ensures
            issue is Some <==> self@.issues.contains_key(issue_id),
            issue matches Some(found) ==> found@ == self@.issues[issue_id],
    {
        let ghost entries = issue_entries(self.issues@);
        match self.find_issue(issue_id) {
            Some(i) => {
                proof {
                    lemma_row(entries, i as int);
                }
                Some(self.issues[i].issue.clone())
            },
            None => {
                proof {
                    lemma_missing(entries, issue_id);
                }
                None
            },
        }
    }

    fn find_task(&self, issue_id: u128, email: &String) -> (found: Option<usize>)
        ensures
            match found {
                Some(i) => i < self.queue.len() && self.queue[i as int].entry().0 == (
                    issue_id,
                    email@,
                ),
                None => forall|i: int|
                    0 <= i < self.queue.len() ==> (#[trigger] self.queue[i]).entry().0 != (
                        issue_id,
                        email@,
                    ),
            },
    {
        let mut i: usize = 0;
        while i < self.queue.len()
            invariant
                0 <= i <= self.queue.len(),
                forall|j: int|
                    0 <= j < i ==> (#[trigger] self.queue[j]).entry().0 != (issue_id, email@),
            decreases self.queue.len() - i,
        {
            if self.queue[i].issue_id == issue_id && self.queue[i].email == *email {
                return Some(i);
            }
            i += 1;
        }
        None
    }

    /// Deletes `task` from the queue and commits: the task is done. Returns
    /// whether the task was pending.
    pub fn delete_task(&mut self, task: &EmailTask) -> (deleted: bool)
        requires
            old(self).wf(),
        ensures
            final(self).wf(),
            final(self)@ == old(self)@.delete_task(task@),
            deleted == old(self)@.queue.contains_key(task@),
    {
        let ghost entries = queue_entries(self.queue@);
        match self.find_task(task.issue_id, &task.email) {
            Some(i) => {
                proof {
                    lemma_row(entries, i as int);
                    lemma_remove(entries, i as int);
                    self@.lemma_queue_wf(task@, 0);
                }
                self.queue.remove(i);
                assert(queue_entries(self.queue@) =~= entries.remove(i as int));
                assert(self@ == old(self)@.delete_task(task@));
                true
            },
            None => {
                proof {
                    lemma_missing(entries, task@);
                    assert(self@.queue =~= self@.queue.remove(task@));
                }
                false
            },
        }
    }

    /// Commits without deleting: `task` stays pending and its lock is free
    /// again. Returns whether the task was pending.
    pub fn release_task(&mut self, task: &EmailTask) -> (released: bool)
        requires
            old(self).wf(),
        ensures
            final(self).wf(),
            final(self)@ == old(self)@.release_task(task@),
            released == old(self)@.queue.contains_key(task@),
    {
        let ghost entries = queue_entries(self.queue@);
        match self.find_task(task.issue_id, &task.email) {
            Some(i) => {
                proof {
                    lemma_row(entries, i as int);
                    lemma_update(entries, i as int, None);
                    self@.lemma_queue_wf(task@, 0);
                }
                self.queue.set(
                    i,
                    QueueRow { issue_id: task.issue_id, email: task.email.clone(), holder: None },
                );
                assert(queue_entries(self.queue@) =~= entries.update(i as int, (task@, None)));
                assert(self@ == old(self)@.release_task(task@));
                true
            },
            None => {
                proof {
                    lemma_missing(entries, task@);
                }
                false
            },
        }
    }

    /// The number of subscribers, confirmed or not.
    pub fn count_subscribers(&self) -> (count: usize)
        requires
            self.wf(),
        ensures
            self@.subscribers.dom().finite(),
            count == self@.subscribers.len(),
    {
        proof {
            lemma_len(subscriber_entries(self.subscribers@));
        }
        self.subscribers.len()
    }

    /// The number of idempotency records, in progress or completed.
    pub fn count_idempotency_records(&self) -> (count: usize)
        requires
            self.wf(),
        ensures
            self@.idempotency.dom().finite(),
            count == self@.idempotency.len(),
    {
        proof {
            lemma_len(claim_entries(self.idempotency@));
        }
        self.idempotency.len()
    }

    /// The number of committed issues.
    pub fn count_issues(&self) -> (count: usize)
        requires
            self.wf(),
        ensures
            self@.issues.dom().finite(),
            count == self@.issues.len(),
    {
        proof {
            lemma_len(issue_entries(self.issues@));
        }
        self.issues.len()
    }

    /// The number of pending delivery tasks, locked or free.
    pub fn count_pending_tasks(&self) -> (count: usize)
        requires
            self.wf(),
        ensures
            self@.queue.dom().finite(),
            count == self@.queue.len(),
    {
        proof {
            lemma_len(queue_entries(self.queue@));
        }
        self.queue.len()
    }

    /// Whether a delivery task for `task` is pending.
    pub fn is_pending(&self, task: &EmailTask) -> (pending: bool)
        requires
            self.wf(),
        ensures
            pending == self@.queue.contains_key(task@),
    {
        let ghost entries = queue_entries(self.queue@);
        match self.find_task(task.issue_id, &task.email) {
            Some(i) => {
                proof {
                    lemma_row(entries, i as int);
                }
                true
            },
            None => {
                proof {
                    lemma_missing(entries, task@);
                }
                false
            },
        }
    }
}

} // verus!
