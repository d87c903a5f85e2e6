//! Publishing a newsletter issue: the steps of one publish request, taken
//! one store statement at a time.

use crate::database::model::{DatabaseView, IssueView};
use crate::database::NewsletterIssue;
use crate::database::store::Database;
use crate::idempotency::key::{is_valid_key, IdempotencyKey, KeyError};
use crate::idempotency::persistence::{CachedResponse, ResponseView};
use vstd::prelude::*;
use vstd::string::*;

verus! {

/// The fields of the publish form.
#[derive(Debug)]
pub struct FormData {
    pub title: String,
    pub html_content: String,
    pub text_content: String,
    pub idempotency_key: String,
}

/// The body of a publish request that carries the issue as structured data.
#[derive(Debug)]
pub struct BodyData {
    pub title: String,
    pub content: Content,
}

/// The two renderings of an issue.
#[derive(Debug)]
pub struct Content {
    pub html: String,
    pub text: String,
}

impl BodyData {
    /// The same issue as the fields of the publish form, under the
    /// idempotency key `idempotency_key`.
    pub fn into_form(self, idempotency_key: String) -> (form: FormData)
        ensures
            form.title@ == self.title@,
            form.html_content@ == self.content.html@,
            form.text_content@ == self.content.text@,
            form.idempotency_key@ == idempotency_key@,
    {
        FormData {
            title: self.title,
            html_content: self.content.html,
            text_content: self.content.text,
            idempotency_key,
        }
    }
}

/// How a publish request ends.
#[derive(Debug)]
pub enum PublishOutcome {
    /// The issue is accepted for delivery; this response was stored for repeats.
    Accepted(CachedResponse),
    /// The key was used before; this is the response stored then, unchanged.
    Replayed(CachedResponse),
    /// The caller is not logged in.
    Unauthenticated,
    /// Part of the form is missing.
    IncompleteForm,
    /// The idempotency key is empty or too long.
    InvalidKey(KeyError),
    /// Another request holds the key and has not finished: try again shortly.
    ConflictInProgress,
    /// The store failed; nothing was published.
    Failed,
}

/// A publish outcome as plain values.
pub enum OutcomeView {
    Accepted(ResponseView),
    Replayed(ResponseView),
    Unauthenticated,
    IncompleteForm,
    InvalidKey(KeyError),
    ConflictInProgress,
    Failed,
}

impl View for PublishOutcome {
    type V = OutcomeView;

    open spec fn view(&self) -> OutcomeView {
        match self {
            PublishOutcome::Accepted(response) => OutcomeView::Accepted(response@),
            PublishOutcome::Replayed(response) => OutcomeView::Replayed(response@),
            PublishOutcome::Unauthenticated => OutcomeView::Unauthenticated,
            PublishOutcome::IncompleteForm => OutcomeView::IncompleteForm,
            PublishOutcome::InvalidKey(error) => OutcomeView::InvalidKey(*error),
            PublishOutcome::ConflictInProgress => OutcomeView::ConflictInProgress,
            PublishOutcome::Failed => OutcomeView::Failed,
        }
    }
}

impl OutcomeView {
    /// The response that the caller receives, where the request was answered
    /// with one.
    pub open spec fn response(self) -> Option<ResponseView> {
        match self {
            OutcomeView::Accepted(response) => Some(response),
            OutcomeView::Replayed(response) => Some(response),
            _ => None,
        }
    }
}

/// What a publish request consists of once its form has been validated.
pub struct RequestView {
    pub user_id: u128,
    pub key: Seq<char>,
    pub issue_id: u128,
    pub issue: IssueView,
    pub now: i64,
    pub response: ResponseView,
}

impl RequestView {
    /// The idempotency record that the request claims.
    pub open spec fn claim(self) -> (u128, Seq<char>) {
        (self.user_id, self.key)
    }
}

/// Where a publish request stands: the statement it waits for, or its end.
#[derive(Debug)]
pub enum Stage {
    /// Waiting for the claim of the key: insert-if-absent of an empty record,
    /// in a new transaction.
    Claiming,
    /// Waiting for the read of the response cached under the key.
    Fetching,
    /// Waiting for the issue and its delivery tasks to be written.
    Enqueueing,
    /// Waiting for the response to be stored and the transaction committed.
    Saving,
    /// Waiting for the transaction to be rolled back.
    Aborting,
    /// Nothing is left to do but to answer the caller.
    Done(PublishOutcome),
}

/// A stage as plain values.
pub enum StageView {
    Claiming,
    Fetching,
    Enqueueing,
    Saving,
    Aborting,
    Done(OutcomeView),
}

impl View for Stage {
    type V = StageView;

    open spec fn view(&self) -> StageView {
        match self {
            Stage::Claiming => StageView::Claiming,
            Stage::Fetching => StageView::Fetching,
            Stage::Enqueueing => StageView::Enqueueing,
            Stage::Saving => StageView::Saving,
            Stage::Aborting => StageView::Aborting,
            Stage::Done(outcome) => StageView::Done(outcome@),
        }
    }
}

/// What the store answered to the statement of the current stage.
#[derive(Debug)]
pub enum StoreReply {
    /// The claim inserted this many rows.
    RowsInserted(u64),
    /// The claim could not get hold of the record in time: another request
    /// holds it.
    ClaimTimedOut,
    /// The cached response that was read, if there was one.
    Saved(Option<CachedResponse>),
    /// The issue and its tasks are written.
    Enqueued,
    /// The response is stored and the transaction committed.
    Committed,
    /// The transaction is rolled back.
    RolledBack,
    /// The statement failed.
    Failed,
}

/// A reply as plain values.
pub enum ReplyView {
    RowsInserted(u64),
    ClaimTimedOut,
    Saved(Option<ResponseView>),
    Enqueued,
    Committed,
    RolledBack,
    Failed,
}

impl View for StoreReply {
    type V = ReplyView;

    open spec fn view(&self) -> ReplyView {
        match self {
            StoreReply::RowsInserted(rows) => ReplyView::RowsInserted(*rows),
            StoreReply::ClaimTimedOut => ReplyView::ClaimTimedOut,
            StoreReply::Saved(Some(response)) => ReplyView::Saved(Some(response@)),
            StoreReply::Saved(None) => ReplyView::Saved(None),
            StoreReply::Enqueued => ReplyView::Enqueued,
            StoreReply::Committed => ReplyView::Committed,
            StoreReply::RolledBack => ReplyView::RolledBack,
            StoreReply::Failed => ReplyView::Failed,
        }
    }
}

/// The stage that follows `stage` when the store answers `reply`.
///
/// A claim that inserted a row goes on to write the issue; one that inserted
/// none reads the cached response and ends with it, or with a conflict where
/// there is none yet. A claim that had to wait too long for a request that
/// holds the key does not block: it counts as one that inserted no row. Writing the issue is followed by storing the response
/// and committing, which ends the request with that response. A failure
/// before the claim succeeded ends the request; one after it rolls the
/// transaction back first.
pub open spec fn next_stage(stage: StageView, reply: ReplyView, response: ResponseView) -> StageView {
    match stage {
        StageView::Claiming => match reply {
            ReplyView::RowsInserted(rows) => if rows > 0 {
                StageView::Enqueueing
            } else {
                StageView::Fetching
            },
            ReplyView::ClaimTimedOut => StageView::Fetching,
            _ => StageView::Done(OutcomeView::Failed),
        },
        StageView::Fetching => match reply {
            ReplyView::Saved(Some(saved)) => StageView::Done(OutcomeView::Replayed(saved)),
            ReplyView::Saved(None) => StageView::Done(OutcomeView::ConflictInProgress),
            _ => StageView::Done(OutcomeView::Failed),
        },
        StageView::Enqueueing => match reply {
            ReplyView::Enqueued => StageView::Saving,
            _ => StageView::Aborting,
        },
        StageView::Saving => match reply {
            ReplyView::Committed => StageView::Done(OutcomeView::Accepted(response)),
            _ => StageView::Aborting,
        },
        StageView::Aborting => StageView::Done(OutcomeView::Failed),
        StageView::Done(outcome) => StageView::Done(outcome),
    }
}

/// One publish request on its way through the store.
#[derive(Debug)]
pub struct Publication {
    user_id: u128,
    key: IdempotencyKey,
    issue_id: u128,
    issue: NewsletterIssue,
    now: i64,
    response: CachedResponse,
    stage: Stage,
}

/// A publication as plain values.
pub struct PublicationView {
    pub request: RequestView,
    pub stage: StageView,
}

impl View for Publication {
    type V = PublicationView;

    closed spec fn view(&self) -> PublicationView {
        PublicationView {
            request: RequestView {
                user_id: self.user_id,
                key: self.key@,
                issue_id: self.issue_id,
                issue: self.issue@,
                now: self.now,
                response: self.response@,
            },
            stage: self.stage@,
        }
    }
}

impl PublicationView {
    /// The publication after the store has answered `reply`.
    pub open spec fn step(self, reply: ReplyView) -> PublicationView {
        PublicationView {
            request: self.request,
            stage: next_stage(self.stage, reply, self.request.response),
        }
    }
}

/// How a request that does not reach the store ends, if it does not.
pub open spec fn rejection(user_id: Option<u128>, key: Option<Seq<char>>) -> Option<OutcomeView> {
    if user_id is None {
        Some(OutcomeView::Unauthenticated)
    } else if key is None {
        Some(OutcomeView::IncompleteForm)
    } else if key.unwrap().len() == 0 {
        Some(OutcomeView::InvalidKey(KeyError::Empty))
    } else if !is_valid_key(key.unwrap()) {
        Some(OutcomeView::InvalidKey(KeyError::TooLong))
    } else {
        None
    }
}

impl Publication {
    /// Validates a publish request and, where it is valid, starts it.
    ///
    /// `user_id` is the logged-in operator, `form` the submitted form where
    /// it could be read. `issue_id` is the id under which the issue is to be
    /// stored, `now` the time in seconds, `response` the response that the
    /// caller is to receive once the issue is accepted.
    ///
    /// Refused without a touch on the store: a caller who is not logged in, a
    /// form that could not be read, a key that is empty or too long, in this
    /// order. Otherwise the publication stands at `Claiming`.
    pub fn begin(
        user_id: Option<u128>,
        form: Option<FormData>,
        issue_id: u128,
        now: i64,
        response: CachedResponse,
    ) -> (started: Result<Publication, PublishOutcome>)
        ensures
            match started {
                Ok(publication) => {
                    &&& rejection(user_id, form_key(form)) is None
                    &&& publication@.stage == StageView::Claiming
                    &&& publication@.request == (RequestView {
                        user_id: user_id.unwrap(),
                        key: form.unwrap().idempotency_key@,
                        issue_id,
                        issue: IssueView {
                            title: form.unwrap().title@,
                            text_content: form.unwrap().text_content@,
                            html_content: form.unwrap().html_content@,
                            published_at: now,
                        },
                        now,
                        response: response@,
                    })
                },
                Err(outcome) => rejection(user_id, form_key(form)) == Some(outcome@),
            },
    {
        let user_id = match user_id {
            Some(user_id) => user_id,
            None => {
                return Err(PublishOutcome::Unauthenticated);
            },
        };
        let form = match form {
            Some(form) => form,
            None => {
                return Err(PublishOutcome::IncompleteForm);
            },
        };
        let key = match IdempotencyKey::try_from(form.idempotency_key) {
            Ok(key) => key,
            Err(error) => {
                return Err(PublishOutcome::InvalidKey(error));
            },
        };
        Ok(
            Publication {
                user_id,
                key,
                issue_id,
                issue: NewsletterIssue {
                    title: form.title,
                    text_content: form.text_content,
                    html_content: form.html_content,
                    published_at: now,
                },
                now,
                response,
                stage: Stage::Claiming,
            },
        )
    }

    /// Takes the store's answer to the statement of the current stage and
    /// moves to the next stage.
    pub fn step(self, reply: StoreReply) -> (next: Publication)
        ensures
            next@ == self@.step(reply@),
    {
        let stage = match self.stage {
            Stage::Claiming => match reply {
                StoreReply::RowsInserted(rows) => if rows > 0 {
                    Stage::Enqueueing
                } else {
                    Stage::Fetching
                },
                StoreReply::ClaimTimedOut => Stage::Fetching,
                _ => Stage::Done(PublishOutcome::Failed),
            },
            Stage::Fetching => match reply {
                StoreReply::Saved(Some(saved)) => Stage::Done(PublishOutcome::Replayed(saved)),
                StoreReply::Saved(None) => Stage::Done(PublishOutcome::ConflictInProgress),
                _ => Stage::Done(PublishOutcome::Failed),
            },
            Stage::Enqueueing => match reply {
                StoreReply::Enqueued => Stage::Saving,
                _ => Stage::Aborting,
            },
            Stage::Saving => match reply {
                StoreReply::Committed => Stage::Done(
                    PublishOutcome::Accepted(self.response.clone()),
                ),
                _ => Stage::Aborting,
            },
            Stage::Aborting => Stage::Done(PublishOutcome::Failed),
            Stage::Done(outcome) => Stage::Done(outcome),
        };
        Publication {
            user_id: self.user_id,
            key: self.key,
            issue_id: self.issue_id,
            issue: self.issue,
            now: self.now,
            response: self.response,
            stage,
        }
    }

    /// The current stage.
    pub fn stage(&self) -> (stage: &Stage)
        ensures
            stage@ == self@.stage,
    {
        &self.stage
    }

    /// Whether the request has ended.
    pub fn is_done(&self) -> (done: bool)
        ensures
            done == (self@.stage is Done),
    {
        match &self.stage {
            Stage::Done(_) => true,
            _ => false,
        }
    }

    /// The outcome of a request that has ended, `None` while it has not.
    pub fn into_outcome(self) -> (outcome: Option<PublishOutcome>)
        ensures
            match outcome {
                Some(outcome) => self@.stage == StageView::Done(outcome@),
                None => !(self@.stage is Done),
            },
    {
        match self.stage {
            Stage::Done(outcome) => Some(outcome),
            _ => None,
        }
    }

    /// The operator who publishes.
    pub fn user_id(&self) -> (user_id: u128)
        ensures
            user_id == self@.request.user_id,
    {
        self.user_id
    }

    /// The idempotency key of the request.
    pub fn idempotency_key(&self) -> (key: &IdempotencyKey)
        ensures
            key@ == self@.request.key,
    {
        &self.key
    }

    /// The id under which the issue is stored.
    pub fn issue_id(&self) -> (issue_id: u128)
        ensures
            issue_id == self@.request.issue_id,
    {
        self.issue_id
    }

    /// The issue to publish.
    pub fn issue(&self) -> (issue: &NewsletterIssue)
        ensures
            issue@ == self@.request.issue,
    {
        &self.issue
    }

    /// The time of the request, in seconds.
    pub fn now(&self) -> (now: i64)
        ensures
            now == self@.request.now,
    {
        self.now
    }

    /// The response that is stored when the issue is accepted.
    pub fn response(&self) -> (response: &CachedResponse)
        ensures
            response@ == self@.request.response,
    {
        &self.response
    }
}

/// The idempotency key in a form, where there is a form.
pub open spec fn form_key(form: Option<FormData>) -> Option<Seq<char>> {
    match form {
        Some(form) => Some(form.idempotency_key@),
        None => None,
    }
}

/// What the store does for the statement that `stage` waits for, and what
/// it answers.
pub open spec fn perform(db: DatabaseView, request: RequestView, stage: StageView) -> (
    DatabaseView,
    ReplyView,
) {
    let claim = request.claim();
    match stage {
        StageView::Claiming => (
            db.claim(claim, request.now),
            ReplyView::RowsInserted(
                if db.is_free(claim) {
                    1
                } else {
                    0
                },
            ),
        ),
        StageView::Fetching => (db, ReplyView::Saved(db.saved_response(claim))),
        StageView::Enqueueing => if db.can_stage(claim, request.issue_id) {
            (db.stage(claim, request.issue_id, request.issue), ReplyView::Enqueued)
        } else {
            (db, ReplyView::Failed)
        },
        StageView::Saving => if db.in_progress(claim) {
            (db.commit(claim, request.response), ReplyView::Committed)
        } else {
            (db, ReplyView::Failed)
        },
        StageView::Aborting => (db.rollback(claim), ReplyView::RolledBack),
        StageView::Done(_) => (db, ReplyView::Failed),
    }
}

/// Runs the statement that `publication` waits for against the store in
/// memory, and hands back the store's answer.
pub fn execute(db: &mut Database, publication: &Publication) -> (reply: StoreReply)
    requires
        old(db).wf(),
    ensures
        final(db).wf(),
        (final(db)@, reply@) == perform(old(db)@, publication@.request, publication@.stage),
{
    match &publication.stage {
        Stage::Claiming => StoreReply::RowsInserted(
            db.claim(&publication.key, publication.user_id, publication.now),
        ),
        Stage::Fetching => StoreReply::Saved(
            db.get_saved_response(&publication.key, publication.user_id),
        ),
        Stage::Enqueueing => match db.enqueue_issue(
            &publication.key,
            publication.user_id,
            publication.issue_id,
            publication.issue.clone(),
        ) {
            Ok(()) => StoreReply::Enqueued,
            Err(_) => StoreReply::Failed,
        },
        Stage::Saving => match db.save_response(
            &publication.key,
            publication.user_id,
            publication.response.clone(),
        ) {
            Ok(_) => StoreReply::Committed,
            Err(_) => StoreReply::Failed,
        },
        Stage::Aborting => {
            db.rollback(&publication.key, publication.user_id);
            StoreReply::RolledBack
        },
        Stage::Done(_) => StoreReply::Failed,
    }
}

/// What a valid publish request does to the store, and how it ends.
///
/// Where the key is taken, the store stays as it is: the request ends with
/// the cached response, or with a conflict while there is none. Where the key
/// is free but the issue id is in use, nothing is published. Otherwise the
/// key is claimed, the issue and a delivery task for every confirmed
/// subscriber are written, and the response is stored, all in one commit.
pub open spec fn publish(db: DatabaseView, request: RequestView) -> (DatabaseView, OutcomeView) {
    let claim = request.claim();
    if !db.is_free(claim) {
        match db.saved_response(claim) {
            Some(saved) => (db, OutcomeView::Replayed(saved)),
            None => (db, OutcomeView::ConflictInProgress),
        }
    } else if db.issues.contains_key(request.issue_id) || db.is_staged(request.issue_id) {
        (db, OutcomeView::Failed)
    } else {
        (
            db.claim(claim, request.now).stage(claim, request.issue_id, request.issue).commit(
                claim,
                request.response,
            ),
            OutcomeView::Accepted(request.response),
        )
    }
}

/// How many statements a request at `stage` can still issue, at most.
pub open spec fn statements_left(stage: StageView) -> nat {
    match stage {
        StageView::Claiming => 4,
        StageView::Enqueueing => 3,
        StageView::Saving => 2,
        StageView::Fetching => 1,
        StageView::Aborting => 1,
        StageView::Done(_) => 0,
    }
}

/// Where the store `db` stands for a request `publication` that started
/// alone on the store `start`.
pub open spec fn on_track(start: DatabaseView, db: DatabaseView, publication: PublicationView) -> bool {
    let request = publication.request;
    let claim = request.claim();
    let claimed = start.claim(claim, request.now);
    match publication.stage {
        StageView::Claiming => db == start,
        StageView::Fetching => db == start && !start.is_free(claim),
        StageView::Enqueueing => start.is_free(claim) && db == claimed,
        StageView::Saving => start.is_free(claim) && claimed.can_stage(claim, request.issue_id)
            && db == claimed.stage(claim, request.issue_id, request.issue),
        StageView::Aborting => start.is_free(claim) && !claimed.can_stage(claim, request.issue_id)
            && db == claimed,
        StageView::Done(outcome) => (db, outcome) == publish(start, request),
    }
}

/// A claim stages nothing: which issue ids are staged stays as it was.
pub proof fn lemma_claim_stages_nothing(db: DatabaseView, claim: (u128, Seq<char>), now: i64, issue_id: u128)
    ensures
        db.claim(claim, now).is_staged(issue_id) == db.is_staged(issue_id),
{
    let after = db.claim(claim, now);
    if db.is_staged(issue_id) {
        let c = choose|c: (u128, Seq<char>)|
            (#[trigger] crate::database::model::staged_under(db.idempotency, c)) matches Some(s)
                && s.issue_id == issue_id;
        assert(crate::database::model::staged_under(after.idempotency, c)
            == crate::database::model::staged_under(db.idempotency, c));
    }
    if after.is_staged(issue_id) {
        let c = choose|c: (u128, Seq<char>)|
            (#[trigger] crate::database::model::staged_under(after.idempotency, c)) matches Some(s)
                && s.issue_id == issue_id;
        assert(crate::database::model::staged_under(after.idempotency, c)
            == crate::database::model::staged_under(db.idempotency, c));
    }
}

/// One statement keeps a request that runs alone on track, and brings it
/// closer to its end.
pub proof fn lemma_on_track(start: DatabaseView, db: DatabaseView, publication: PublicationView)
    requires
        on_track(start, db, publication),
        !(publication.stage is Done),
    ensures
        on_track(
            start,
            perform(db, publication.request, publication.stage).0,
            publication.step(perform(db, publication.request, publication.stage).1),
        ),
        statements_left(
            publication.step(perform(db, publication.request, publication.stage).1).stage,
        ) < statements_left(publication.stage),
{
    let request = publication.request;
    let claim = request.claim();
    let claimed = start.claim(claim, request.now);
    lemma_claim_stages_nothing(start, claim, request.now, request.issue_id);
    match publication.stage {
        StageView::Aborting => {
            assert(claimed.rollback(claim).idempotency =~= start.idempotency);
            assert(claimed.rollback(claim) == start);
        },
        _ => {},
    }
}

/// Handles one publish request from start to end against the store in memory.
///
/// A request that is refused before it reaches the store leaves the store as
/// it is. Any other request does to the store, and ends, as `publish` says.
pub fn publish_newsletter(
    db: &mut Database,
    user_id: Option<u128>,
    form: Option<FormData>,
    issue_id: u128,
    now: i64,
    response: CachedResponse,
) -> (outcome: PublishOutcome)
    requires
        old(db).wf(),
    ensures
        final(db).wf(),
        match rejection(user_id, form_key(form)) {
            Some(refused) => outcome@ == refused && final(db)@ == old(db)@,
            None => (final(db)@, outcome@) == publish(
                old(db)@,
                RequestView {
                    user_id: user_id.unwrap(),
                    key: form.unwrap().idempotency_key@,
                    issue_id,
                    issue: IssueView {
                        title: form.unwrap().title@,
                        text_content: form.unwrap().text_content@,
                        html_content: form.unwrap().html_content@,
                        published_at: now,
                    },
                    now,
                    response: response@,
                },
            ),
        },
{
    let mut publication = match Publication::begin(user_id, form, issue_id, now, response) {
        Ok(publication) => publication,
        Err(outcome) => {
            return outcome;
        },
    };
    let ghost request = publication@.request;
    while !publication.is_done()
        invariant
            db.wf(),
            publication@.request == request,
            on_track(old(db)@, db@, publication@),
        decreases statements_left(publication@.stage),
    {
        proof {
            lemma_on_track(old(db)@, db@, publication@);
        }
        let reply = execute(db, &publication);
        publication = publication.step(reply);
    }
    match publication.into_outcome() {
        Some(outcome) => outcome,
        None => PublishOutcome::Failed,
    }
}

/// Status code for a caller who has to log in first.
pub const UNAUTHORIZED: u16 = 401;

/// Status code for a redirect to another page.
pub const SEE_OTHER: u16 = 303;

/// Status code for a request that is malformed.
pub const BAD_REQUEST: u16 = 400;

/// Status code for a request whose key is held by a request still at work.
pub const CONFLICT: u16 = 409;

/// Status code for a body that cannot be read as the expected data.
pub const UNPROCESSABLE_ENTITY: u16 = 422;

/// Status code for a failure of the service.
pub const INTERNAL_SERVER_ERROR: u16 = 500;

/// What the operator is told when the form could not be read.
pub const INCOMPLETE_FORM_MESSAGE: &'static str = "Part of the form is not filled out";

/// What the operator is told when an issue was accepted.
pub const PUBLISH_SUCCESS_INFO_MESSAGE: &'static str = "The newsletter issue has been published";

impl PublishOutcome {
    /// The status code of the answer: that of the stored response where
    /// there is one, a redirect to the login page for a caller who is not
    /// logged in, 400 for a form that is incomplete or a key that is invalid,
    /// 409 for a key that is held, 500 for a failure.
    pub fn status_code(&self) -> (status_code: u16)
        ensures
            status_code == (match self@ {
                OutcomeView::Accepted(response) => response.status,
                OutcomeView::Replayed(response) => response.status,
                OutcomeView::Unauthenticated => SEE_OTHER,
                OutcomeView::IncompleteForm => BAD_REQUEST,
                OutcomeView::InvalidKey(_) => BAD_REQUEST,
                OutcomeView::ConflictInProgress => CONFLICT,
                OutcomeView::Failed => INTERNAL_SERVER_ERROR,
            }),
    {
        match self {
            PublishOutcome::Accepted(response) => response.status(),
            PublishOutcome::Replayed(response) => response.status(),
            PublishOutcome::Unauthenticated => SEE_OTHER,
            PublishOutcome::IncompleteForm => BAD_REQUEST,
            PublishOutcome::InvalidKey(_) => BAD_REQUEST,
            PublishOutcome::ConflictInProgress => CONFLICT,
            PublishOutcome::Failed => INTERNAL_SERVER_ERROR,
        }
    }
}

/// Why a publish request that carries its own credentials failed.
#[derive(Debug)]
pub enum PublishError {
    /// The credentials were refused; the message says why.
    AuthError(String),
    /// The service failed; the message says how.
    UnexpectedError(String),
    /// The body could not be read; the message says why.
    JsonExtractionError(String),
}

impl PublishError {
    /// The status code under which the error is reported: 401 for refused
    /// credentials, 500 for a failure, 422 for an unreadable body.
    pub fn status_code(&self) -> (status_code: u16)
        ensures
            status_code == (match self {
                PublishError::AuthError(_) => UNAUTHORIZED,
                PublishError::UnexpectedError(_) => INTERNAL_SERVER_ERROR,
                PublishError::JsonExtractionError(_) => UNPROCESSABLE_ENTITY,
            }),
    {
        match self {
            PublishError::AuthError(_) => UNAUTHORIZED,
            PublishError::UnexpectedError(_) => INTERNAL_SERVER_ERROR,
            PublishError::JsonExtractionError(_) => UNPROCESSABLE_ENTITY,
        }
    }

    /// The challenge that goes out with refused credentials, as the value of
    /// the `WWW-Authenticate` header; `None` for any other error.
    pub fn challenge(&self) -> (challenge: Option<&'static str>)
        ensures
            match self {
                PublishError::AuthError(_) => challenge matches Some(value) && value@
                    == "Basic realm=\"publish\""@,
                _ => challenge is None,
            },
    {
        match self {
            PublishError::AuthError(_) => Some("Basic realm=\"publish\""),
            _ => None,
        }
    }

    /// What the caller is shown: `Authentication failed` for refused
    /// credentials, the message otherwise.
    pub fn to_string(&self) -> (message: String)
        ensures
            match self {
                PublishError::AuthError(_) => message@ == "Authentication failed"@,
                PublishError::UnexpectedError(inner) => message@ == inner@,
                PublishError::JsonExtractionError(inner) => message@ == inner@,
            },
    {
        match self {
            PublishError::AuthError(_) => String::from_str("Authentication failed"),
            PublishError::UnexpectedError(inner) => inner.clone(),
            PublishError::JsonExtractionError(inner) => inner.clone(),
        }
    }
}

} // verus!
