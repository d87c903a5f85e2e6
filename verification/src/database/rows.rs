//! The rows of the store's tables.

use crate::database::model::{ClaimId, IssueView, RecordState, RecordView, StagedView, TaskId};
use crate::idempotency::persistence::CachedResponse;
use vstd::prelude::*;
use vstd::string::*;

verus! {

/// The content of a newsletter issue: what is sent to every recipient.
#[derive(Debug)]
pub struct NewsletterIssue {
    pub title: String,
    pub text_content: String,
    pub html_content: String,
    /// Seconds since the epoch at which the issue was published.
    pub published_at: i64,
}

impl View for NewsletterIssue {
    type V = IssueView;

    open spec fn view(&self) -> IssueView {
        IssueView {
            title: self.title@,
            text_content: self.text_content@,
            html_content: self.html_content@,
            published_at: self.published_at,
        }
    }
}

impl Clone for NewsletterIssue {
    fn clone(&self) -> (copy: Self)
        ensures
            copy@ == self@,
    {
        NewsletterIssue {
            title: self.title.clone(),
            text_content: self.text_content.clone(),
            html_content: self.html_content.clone(),
            published_at: self.published_at,
        }
    }
}

/// One row of the delivery queue: an issue and the address it goes to.
#[derive(Debug)]
pub struct EmailTask {
    pub issue_id: u128,
    pub email: String,
}

impl View for EmailTask {
    type V = TaskId;

    open spec fn view(&self) -> TaskId {
        (self.issue_id, self.email@)
    }
}

impl Clone for EmailTask {
    fn clone(&self) -> (copy: Self)
        ensures
            copy@ == self@,
    {
        EmailTask { issue_id: self.issue_id, email: self.email.clone() }
    }
}

/// The addresses in a list, as a set.
pub open spec fn addresses(list: Seq<String>) -> Set<Seq<char>> {
    Set::new(|email: Seq<char>| exists|i: int| 0 <= i < list.len() && (#[trigger] list[i])@ == email)
}

/// No address occurs twice in the list.
pub open spec fn distinct_addresses(list: Seq<String>) -> bool {
    forall|i: int, j: int| 0 <= i < j < list.len() ==> (#[trigger] list[i])@ != (#[trigger] list[j])@
}

/// Appending an address to a list adds it to the set.
pub proof fn lemma_addresses_push(list: Seq<String>, email: String)
    ensures
        addresses(list.push(email)) == addresses(list).insert(email@),
{
    let longer = list.push(email);
    assert forall|e: Seq<char>| addresses(longer).contains(e) <==> addresses(list).insert(
        email@,
    ).contains(e) by {
        if addresses(longer).contains(e) {
            let i = choose|i: int| 0 <= i < longer.len() && (#[trigger] longer[i])@ == e;
            if i < list.len() {
                assert(list[i]@ == e);
            }
        }
        if addresses(list).contains(e) {
            let i = choose|i: int| 0 <= i < list.len() && (#[trigger] list[i])@ == e;
            assert(longer[i]@ == e);
        }
        if e == email@ {
            assert(longer[list.len() as int]@ == e);
        }
    }
    assert(addresses(longer) =~= addresses(list).insert(email@));
}

/// A subscriber: an address, and whether it has been confirmed.
pub(crate) struct SubscriberRow {
    pub email: String,
    pub confirmed: bool,
}

impl SubscriberRow {
    pub(crate) open spec fn entry(self) -> (Seq<char>, bool) {
        (self.email@, self.confirmed)
    }
}

/// What an open publish transaction has written.
pub(crate) struct StagedIssue {
    pub issue_id: u128,
    pub issue: NewsletterIssue,
    pub recipients: Vec<String>,
}

impl StagedIssue {
    pub(crate) open spec fn view(&self) -> StagedView {
        StagedView {
            issue_id: self.issue_id,
            issue: self.issue@,
            recipients: addresses(self.recipients@),
        }
    }
}

/// Where the request that claimed a key stands.
pub(crate) enum Progress {
    InProgress(Option<StagedIssue>),
    Completed(CachedResponse),
}

impl Progress {
    pub(crate) open spec fn view(&self) -> RecordState {
        match self {
            Progress::InProgress(Some(staged)) => RecordState::InProgress(Some(staged@)),
            Progress::InProgress(None) => RecordState::InProgress(None),
            Progress::Completed(response) => RecordState::Completed(response@),
        }
    }
}

/// An idempotency record.
pub(crate) struct ClaimRow {
    pub user_id: u128,
    pub key: String,
    pub created_at: i64,
    pub progress: Progress,
}

impl ClaimRow {
    pub(crate) open spec fn entry(self) -> (ClaimId, RecordView) {
        ((self.user_id, self.key@), RecordView { created_at: self.created_at, state: self.progress@ })
    }
}

/// A committed issue under its id.
pub(crate) struct IssueRow {
    pub issue_id: u128,
    pub issue: NewsletterIssue,
}

impl IssueRow {
    pub(crate) open spec fn entry(self) -> (u128, IssueView) {
        (self.issue_id, self.issue@)
    }
}

/// A pending delivery task and the worker that holds its lock.
pub(crate) struct QueueRow {
    pub issue_id: u128,
    pub email: String,
    pub holder: Option<u64>,
}

impl QueueRow {
    pub(crate) open spec fn entry(self) -> (TaskId, Option<u64>) {
        ((self.issue_id, self.email@), self.holder)
    }
}

/// The rows of the subscribers table as key and content.
pub(crate) open spec fn subscriber_entries(rows: Seq<SubscriberRow>) -> Seq<(Seq<char>, bool)> {
    rows.map_values(|row: SubscriberRow| row.entry())
}

/// The idempotency records as key and content.
pub(crate) open spec fn claim_entries(rows: Seq<ClaimRow>) -> Seq<(ClaimId, RecordView)> {
    rows.map_values(|row: ClaimRow| row.entry())
}

/// The issues as key and content.
pub(crate) open spec fn issue_entries(rows: Seq<IssueRow>) -> Seq<(u128, IssueView)> {
    rows.map_values(|row: IssueRow| row.entry())
}

/// The delivery queue as key and content.
pub(crate) open spec fn queue_entries(rows: Seq<QueueRow>) -> Seq<(TaskId, Option<u64>)> {
    rows.map_values(|row: QueueRow| row.entry())
}

} // verus!
