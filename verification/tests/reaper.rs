use zero2prod::database::Database;
use zero2prod::idempotency::{CachedResponse, IdempotencyKey};
use zero2prod::idempotency_remover_worker::{
    cutoff, has_expired, remove_old_idempotency_entries, RUN_INTERVAL_SECONDS,
};

const DAY: i64 = 24 * 60 * 60;

fn key(name: &str) -> IdempotencyKey {
    IdempotencyKey::try_from(name.to_string()).unwrap()
}

fn completed(db: &mut Database, name: &str, created_at: i64) {
    assert_eq!(db.claim(&key(name), 1, created_at), 1);
    db.save_response(&key(name), 1, CachedResponse::new(200, vec![], vec![]).unwrap()).unwrap();
}

#[test]
fn old_idempotency_entries_are_cleaned_up() {
    let now = 1_700_000_000;
    let mut db = Database::new();
    // Two records without any response: one six days old, one new.
    assert_eq!(db.claim(&key("old"), 1, now - 6 * DAY), 1);
    assert_eq!(db.claim(&key("new"), 1, now), 1);
    remove_old_idempotency_entries(&mut db, now);
    assert_eq!(1, db.count_idempotency_records());
    // The old one is gone and can be claimed again; the new one is still held.
    assert_eq!(db.claim(&key("new"), 1, now), 0);
    assert_eq!(db.claim(&key("old"), 1, now), 1);
}

#[test]
fn old_records_with_a_response_are_cleaned_up_as_well() {
    let now = 1_700_000_000;
    let mut db = Database::new();
    completed(&mut db, "old", now - 6 * DAY);
    completed(&mut db, "new", now);
    remove_old_idempotency_entries(&mut db, now);
    assert_eq!(db.count_idempotency_records(), 1);
    assert!(db.get_saved_response(&key("old"), 1).is_none());
    assert!(db.get_saved_response(&key("new"), 1).is_some());
}

#[test]
fn a_record_of_exactly_five_days_stays() {
    let now = 1_700_000_000;
    let mut db = Database::new();
    completed(&mut db, "edge", now - 5 * DAY);
    completed(&mut db, "past", now - 5 * DAY - 1);
    remove_old_idempotency_entries(&mut db, now);
    assert!(db.get_saved_response(&key("edge"), 1).is_some());
    assert!(db.get_saved_response(&key("past"), 1).is_none());
}

#[test]
fn an_old_claim_takes_what_it_staged_with_it() {
    let now = 1_700_000_000;
    let mut db = Database::new();
    assert_eq!(db.claim(&key("slow"), 1, now - 30 * DAY), 1);
    let issue = zero2prod::database::NewsletterIssue {
        title: "t".to_string(),
        text_content: "x".to_string(),
        html_content: "h".to_string(),
        published_at: now - 30 * DAY,
    };
    db.enqueue_issue(&key("slow"), 1, 1, issue).unwrap();
    remove_old_idempotency_entries(&mut db, now);
    assert_eq!(db.count_idempotency_records(), 0);
    // Nothing can be committed under the record any more, and nothing shows.
    assert!(db.save_response(&key("slow"), 1, CachedResponse::new(200, vec![], vec![]).unwrap()).is_err());
    assert_eq!(db.count_issues(), 0);
    assert_eq!(db.count_pending_tasks(), 0);
}

#[test]
fn a_reaped_key_can_be_claimed_again() {
    let now = 1_700_000_000;
    let mut db = Database::new();
    completed(&mut db, "old", now - 6 * DAY);
    assert_eq!(db.claim(&key("old"), 1, now), 0);
    remove_old_idempotency_entries(&mut db, now);
    assert_eq!(db.claim(&key("old"), 1, now), 1);
}

#[test]
fn the_reaper_leaves_issues_tasks_and_subscribers_alone() {
    let now = 1_700_000_000;
    let mut db = Database::new();
    assert!(db.insert_subscriber("reader@example.com"));
    assert!(db.confirm_subscriber("reader@example.com"));
    assert_eq!(db.claim(&key("old"), 1, now - 6 * DAY), 1);
    let issue = zero2prod::database::NewsletterIssue {
        title: "t".to_string(),
        text_content: "x".to_string(),
        html_content: "h".to_string(),
        published_at: now - 6 * DAY,
    };
    db.enqueue_issue(&key("old"), 1, 1, issue).unwrap();
    db.save_response(&key("old"), 1, CachedResponse::new(200, vec![], vec![]).unwrap()).unwrap();
    remove_old_idempotency_entries(&mut db, now);
    assert_eq!(db.count_idempotency_records(), 0);
    assert_eq!(db.count_issues(), 1);
    assert_eq!(db.count_pending_tasks(), 1);
    assert_eq!(db.count_subscribers(), 1);
}

#[test]
fn expiry_is_strictly_older_than_five_days() {
    assert!(!has_expired(0, 432_000));
    assert!(has_expired(0, 432_001));
    assert!(!has_expired(100, 100));
    assert!(has_expired(-432_001, 0));
}

#[test]
fn expiry_does_not_overflow_at_the_ends_of_time() {
    assert!(has_expired(i64::MIN, i64::MAX));
    assert!(!has_expired(i64::MAX, i64::MIN));
    assert!(!has_expired(i64::MAX, i64::MAX));
}

#[test]
fn the_cutoff_is_five_days_before_now() {
    assert_eq!(cutoff(1_000_000), 1_000_000 - 432_000);
    assert_eq!(cutoff(i64::MIN + 10), i64::MIN);
    assert_eq!(cutoff(i64::MIN + 432_000), i64::MIN);
}

#[test]
fn the_reaper_runs_once_a_day() {
    assert_eq!(RUN_INTERVAL_SECONDS, 24 * 60 * 60);
}
