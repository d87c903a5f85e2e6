//! Repeating a publish request publishes once.
//!
//! Any number of requests that carry the same idempotency key of the same
//! operator may reach the store at once. The store runs their statements one
//! at a time, in an order that nobody controls. Whatever that order is, at
//! most one of the requests is accepted, at most one issue appears, and every
//! request that is answered with a response is answered with the same one.

use crate::database::model::{is_expired, queue_with, DatabaseView, StagedView};
use crate::guarantees::history::{Operation, World};
use crate::idempotency::persistence::ResponseView;
use crate::routes::newsletters::{perform, OutcomeView, PublicationView, StageView};
use vstd::prelude::*;

verus! {

/// The store and the requests after the statements of `schedule` have run.
/// Each entry of `schedule` names the request whose next statement runs; an
/// entry that names no request, or one that has ended, does nothing.
pub open spec fn run(db: DatabaseView, requests: Seq<PublicationView>, schedule: Seq<int>) -> (
    DatabaseView,
    Seq<PublicationView>,
)
    decreases schedule.len(),
{
    if schedule.len() == 0 {
        (db, requests)
    } else {
        let (before, waiting) = run(db, requests, schedule.drop_last());
        advance(before, waiting, schedule.last())
    }
}

/// The store and the requests after the next statement of request `turn`.
pub open spec fn advance(db: DatabaseView, requests: Seq<PublicationView>, turn: int) -> (
    DatabaseView,
    Seq<PublicationView>,
) {
    if 0 <= turn < requests.len() && !(requests[turn].stage is Done) {
        let (after, reply) = perform(db, requests[turn].request, requests[turn].stage);
        (after, requests.update(turn, requests[turn].step(reply)))
    } else {
        (db, requests)
    }
}

/// Whether a request holds the claim on its key: it has claimed the key and
/// neither committed nor rolled back.
pub open spec fn holds_claim(request: PublicationView) -> bool {
    request.stage is Enqueueing || request.stage is Saving || request.stage is Aborting
}

/// Whether a request has ended with its issue accepted.
pub open spec fn is_accepted(request: PublicationView) -> bool {
    request.stage matches StageView::Done(OutcomeView::Accepted(_))
}

/// The response with which a request was answered, if it has ended with one.
pub open spec fn answer(request: PublicationView) -> Option<ResponseView> {
    match request.stage {
        StageView::Done(outcome) => outcome.response(),
        _ => None,
    }
}

/// What holds of the store `db` and the requests `requests` at every moment
/// of a run that began on the store `start` with requests for `claim`.
pub open spec fn consistent(
    start: DatabaseView,
    claim: (u128, Seq<char>),
    db: DatabaseView,
    requests: Seq<PublicationView>,
) -> bool {
    &&& db.subscribers == start.subscribers
    &&& forall|i: int| 0 <= i < requests.len() ==> (#[trigger] requests[i]).request.claim() == claim
    &&& forall|i: int, j: int|
        0 <= i < requests.len() && 0 <= j < requests.len() && holds_claim(#[trigger] requests[i])
            && holds_claim(#[trigger] requests[j]) ==> i == j
    &&& forall|i: int, j: int|
        0 <= i < requests.len() && 0 <= j < requests.len() && is_accepted(#[trigger] requests[i])
            && is_accepted(#[trigger] requests[j]) ==> i == j
    &&& forall|i: int|
        0 <= i < requests.len() && holds_claim(#[trigger] requests[i]) ==> {
            &&& db.in_progress(claim)
            &&& requests[i].stage is Enqueueing ==> db.staged(claim) is None
            &&& requests[i].stage is Saving ==> db.staged(claim) == Some(
                StagedView {
                    issue_id: requests[i].request.issue_id,
                    issue: requests[i].request.issue,
                    recipients: start.confirmed(),
                },
            )
        }
    &&& forall|i: int|
        0 <= i < requests.len() && answer(#[trigger] requests[i]) is Some ==> db.saved_response(
            claim,
        ) == answer(requests[i])
    &&& forall|i: int|
        0 <= i < requests.len() && is_accepted(#[trigger] requests[i]) ==> {
            &&& db.issues == start.issues.insert(
                requests[i].request.issue_id,
                requests[i].request.issue,
            )
            &&& db.queue == queue_with(
                start.queue,
                requests[i].request.issue_id,
                start.confirmed(),
            )
        }
    &&& (forall|i: int| 0 <= i < requests.len() ==> !is_accepted(#[trigger] requests[i])) ==> {
        &&& db.issues == start.issues
        &&& db.queue == start.queue
    }
}

/// While no response is stored under the key, no request has been answered
/// with one, and none has been accepted.
pub proof fn lemma_nobody_answered(
    start: DatabaseView,
    claim: (u128, Seq<char>),
    db: DatabaseView,
    requests: Seq<PublicationView>,
)
    requires
        consistent(start, claim, db, requests),
        db.saved_response(claim) is None,
    ensures
        forall|i: int|
            0 <= i < requests.len() ==> answer(#[trigger] requests[i]) is None && !is_accepted(
                requests[i],
            ),
{
    assert forall|i: int| 0 <= i < requests.len() implies answer(#[trigger] requests[i]) is None
        && !is_accepted(requests[i]) by {
        if is_accepted(requests[i]) {
            assert(answer(requests[i]) is Some);
        }
    }
}

/// Where nobody is accepted after a request that was not accepted has moved,
/// nobody was accepted before.
pub proof fn lemma_nobody_accepted_before(
    requests: Seq<PublicationView>,
    moved: Seq<PublicationView>,
    turn: int,
)
    requires
        0 <= turn < requests.len(),
        moved == requests.update(turn, moved[turn]),
        !is_accepted(requests[turn]),
        forall|i: int| 0 <= i < moved.len() ==> !is_accepted(#[trigger] moved[i]),
    ensures
        forall|i: int| 0 <= i < requests.len() ==> !is_accepted(#[trigger] requests[i]),
{
    assert forall|i: int| 0 <= i < requests.len() implies !is_accepted(#[trigger] requests[i]) by {
        if i != turn {
            assert(moved[i] == requests[i]);
        }
    }
}

/// One statement of any request keeps the run consistent.
pub proof fn lemma_advance_consistent(
    start: DatabaseView,
    claim: (u128, Seq<char>),
    db: DatabaseView,
    requests: Seq<PublicationView>,
    turn: int,
)
    requires
        consistent(start, claim, db, requests),
    ensures
        consistent(start, claim, advance(db, requests, turn).0, advance(db, requests, turn).1),
        advance(db, requests, turn).1.len() == requests.len(),
{
    if 0 <= turn < requests.len() && !(requests[turn].stage is Done) {
        let mover = requests[turn];
        let (after, reply) = perform(db, mover.request, mover.stage);
        let moved = requests.update(turn, mover.step(reply));
        assert(mover.request.claim() == claim);
        assert(after.confirmed() == start.confirmed());
        assert forall|i: int| 0 <= i < moved.len() && i != turn implies #[trigger] moved[i]
            == requests[i] by {}
        if db.saved_response(claim) is None {
            lemma_nobody_answered(start, claim, db, requests);
        }
        if forall|i: int| 0 <= i < moved.len() ==> !is_accepted(#[trigger] moved[i]) {
            lemma_nobody_accepted_before(requests, moved, turn);
        }
        assert(holds_claim(mover) <==> !(mover.stage is Claiming || mover.stage is Fetching));
        assert(mover.stage is Saving ==> is_accepted(moved[turn]));
    }
}

/// Every moment of a run is consistent.
pub proof fn lemma_run_consistent(
    start: DatabaseView,
    claim: (u128, Seq<char>),
    requests: Seq<PublicationView>,
    schedule: Seq<int>,
)
    requires
        forall|i: int|
            0 <= i < requests.len() ==> (#[trigger] requests[i]).stage == StageView::Claiming
                && requests[i].request.claim() == claim,
    ensures
        consistent(start, claim, run(start, requests, schedule).0, run(start, requests, schedule).1),
        run(start, requests, schedule).1.len() == requests.len(),
    decreases schedule.len(),
{
    if schedule.len() > 0 {
        lemma_run_consistent(start, claim, requests, schedule.drop_last());
        let (before, waiting) = run(start, requests, schedule.drop_last());
        lemma_advance_consistent(start, claim, before, waiting, schedule.last());
    }
}

/// Requests that repeat one publish action publish it once.
///
/// Let any number of publish requests carry the same idempotency key of the
/// same operator, and let the store run their statements in any order. Then
/// at most one of them is accepted; the issues and delivery tasks in the
/// store are those from before, joined, if a request was accepted, by the
/// issue of that request with one task for each subscriber confirmed at the
/// start; and any two requests that were answered with a response were
/// answered with the same status, headers and body.
pub proof fn lemma_repeats_publish_once(
    start: DatabaseView,
    user_id: u128,
    key: Seq<char>,
    requests: Seq<PublicationView>,
    schedule: Seq<int>,
)
    requires
        forall|i: int|
            0 <= i < requests.len() ==> (#[trigger] requests[i]).stage == StageView::Claiming
                && requests[i].request.claim() == (user_id, key),
    ensures
        ({
            let (db, ended) = run(start, requests, schedule);
            &&& ended.len() == requests.len()
            &&& forall|i: int, j: int|
                0 <= i < ended.len() && 0 <= j < ended.len() && is_accepted(#[trigger] ended[i])
                    && is_accepted(#[trigger] ended[j]) ==> i == j
            &&& forall|i: int, j: int|
                0 <= i < ended.len() && 0 <= j < ended.len() && answer(#[trigger] ended[i]) is Some
                    && answer(#[trigger] ended[j]) is Some ==> answer(ended[i]) == answer(ended[j])
            &&& forall|i: int|
                0 <= i < ended.len() && is_accepted(#[trigger] ended[i]) ==> {
                    &&& db.issues == start.issues.insert(
                        ended[i].request.issue_id,
                        ended[i].request.issue,
                    )
                    &&& db.queue == queue_with(
                        start.queue,
                        ended[i].request.issue_id,
                        start.confirmed(),
                    )
                }
            &&& (forall|i: int| 0 <= i < ended.len() ==> !is_accepted(#[trigger] ended[i])) ==> {
                &&& db.issues == start.issues
                &&& db.queue == start.queue
            }
        }),
{
    lemma_run_consistent(start, (user_id, key), requests, schedule);
}

/// The first claim wins: once a key is claimed, claiming it again changes
/// nothing and inserts no row.
pub proof fn lemma_first_claim_wins(db: DatabaseView, claim: (u128, Seq<char>), first: i64, second: i64)
    ensures
        !db.claim(claim, first).is_free(claim),
        db.claim(claim, first).claim(claim, second) == db.claim(claim, first),
{
}

/// A cached response stays as it is, whatever else happens to the store,
/// until the reaper finds it older than the retention window.
pub proof fn lemma_saved_response_is_stable(
    world: World,
    claim: (u128, Seq<char>),
    operation: Operation,
)
    requires
        world.db.saved_response(claim) is Some,
        operation matches Operation::RemoveOldEntries { now } ==> !is_expired(
            world.db.idempotency[claim].created_at,
            now,
        ),
    ensures
        world.apply(operation).db.saved_response(claim) == world.db.saved_response(claim),
{
}

} // verus!
