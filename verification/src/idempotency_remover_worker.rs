//! The reaper: removing idempotency records that have outlived the
//! retention window.

use crate::database::model::{is_expired, RETENTION_SECONDS};
use crate::database::store::Database;
use vstd::prelude::*;

verus! {

/// Seconds between two runs of the reaper: one day.
pub const RUN_INTERVAL_SECONDS: u64 = 86400;

/// Whether a record created at `created_at` has outlived the retention
/// window of five days at `now`. Both are seconds since the epoch.
pub fn has_expired(created_at: i64, now: i64) -> (expired: bool)
    ensures
        expired == is_expired(created_at, now),
{
    (created_at as i128) + (RETENTION_SECONDS as i128) < (now as i128)
}

/// The time before which a record must have been created to be expired at
/// `now`: five days before `now`, or the earliest time there is where that
/// cannot be told in seconds.
pub fn cutoff(now: i64) -> (limit: i64)
    ensures
        limit == (if now - RETENTION_SECONDS >= i64::MIN {
            now - RETENTION_SECONDS
        } else {
            i64::MIN as int
        }),
        forall|created_at: i64| #[trigger] is_expired(created_at, now) <==> created_at < limit,
{
    if now >= i64::MIN + RETENTION_SECONDS {
        now - RETENTION_SECONDS
    } else {
        i64::MIN
    }
}

/// Deletes from the store in memory every idempotency record that is older
/// at `now` than the retention window, with or without a response.
pub fn remove_old_idempotency_entries(db: &mut Database, now: i64)
    requires
        old(db).wf(),
    ensures
        final(db).wf(),
        final(db)@ == old(db)@.remove_old_entries(now),
{
    db.remove_old_idempotency_entries(now);
}

} // verus!
