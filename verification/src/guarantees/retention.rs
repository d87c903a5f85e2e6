//! The reaper removes the idempotency records that are older than the
//! retention window, and nothing else.

use crate::database::model::{is_expired, DatabaseView, RETENTION_SECONDS};
use vstd::prelude::*;

verus! {

/// The reaper removes exactly the records that are older than five days,
/// with or without a response: a record is in the store afterwards if and
/// only if it was there before and is not older than that, and the records
/// that stay are unchanged. Subscribers, issues and tasks are untouched.
pub proof fn lemma_reaper_removes_exactly_the_old(
    db: DatabaseView,
    claim: (u128, Seq<char>),
    now: i64,
)
    ensures
        ({
            let after = db.remove_old_entries(now);
            &&& after.idempotency.contains_key(claim) <==> db.idempotency.contains_key(claim)
                && db.idempotency[claim].created_at >= now - 5 * 24 * 60 * 60
            &&& after.idempotency.contains_key(claim) ==> after.idempotency[claim]
                == db.idempotency[claim]
            &&& after.subscribers == db.subscribers
            &&& after.issues == db.issues
            &&& after.queue == db.queue
        }),
{
}

/// The boundary of the retention window: a record that is exactly five days
/// old is not yet expired, and one that is a second older is.
pub proof fn lemma_retention_boundary(created_at: i64, now: i64)
    ensures
        now - created_at == RETENTION_SECONDS ==> !is_expired(created_at, now),
        now - created_at == RETENTION_SECONDS + 1 ==> is_expired(created_at, now),
        now - created_at == 6 * 24 * 60 * 60 ==> is_expired(created_at, now),
        !is_expired(now, now),
{
}

} // verus!
