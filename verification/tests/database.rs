use zero2prod::database::store::{EnqueueError, SaveError};
use zero2prod::database::{Database, EmailTask, NewsletterIssue};
use zero2prod::idempotency::{CachedResponse, HeaderPairRecord, IdempotencyKey};

fn key(name: &str) -> IdempotencyKey {
    IdempotencyKey::try_from(name.to_string()).unwrap()
}

fn issue(title: &str) -> NewsletterIssue {
    NewsletterIssue {
        title: title.to_string(),
        text_content: "text".to_string(),
        html_content: "html".to_string(),
        published_at: 50,
    }
}

fn ok() -> CachedResponse {
    CachedResponse::new(
        200,
        vec![HeaderPairRecord { name: "x-a".to_string(), value: b"1".to_vec() }],
        b"ok".to_vec(),
    )
    .unwrap()
}

#[test]
fn a_new_store_is_empty() {
    let db = Database::new();
    assert_eq!(db.count_subscribers(), 0);
    assert_eq!(db.count_idempotency_records(), 0);
    assert_eq!(db.count_issues(), 0);
    assert_eq!(db.count_pending_tasks(), 0);
}

#[test]
fn a_subscriber_is_inserted_once() {
    let mut db = Database::new();
    assert!(db.insert_subscriber("a@example.com"));
    assert!(!db.insert_subscriber("a@example.com"));
    assert_eq!(db.count_subscribers(), 1);
}

#[test]
fn only_confirmed_subscribers_are_listed() {
    let mut db = Database::new();
    assert!(db.insert_subscriber("a@example.com"));
    assert!(db.insert_subscriber("b@example.com"));
    assert!(db.insert_subscriber("c@example.com"));
    assert!(db.confirm_subscriber("c@example.com"));
    assert!(db.confirm_subscriber("a@example.com"));
    assert!(!db.confirm_subscriber("nobody@example.com"));
    let mut confirmed = db.get_confirmed_subscribers();
    confirmed.sort();
    assert_eq!(confirmed, vec!["a@example.com", "c@example.com"]);
}

#[test]
fn confirming_twice_changes_nothing() {
    let mut db = Database::new();
    assert!(db.insert_subscriber("a@example.com"));
    assert!(db.confirm_subscriber("a@example.com"));
    assert!(db.confirm_subscriber("a@example.com"));
    assert_eq!(db.get_confirmed_subscribers(), vec!["a@example.com"]);
}

#[test]
fn the_first_claim_wins() {
    let mut db = Database::new();
    assert_eq!(db.claim(&key("k"), 1, 10), 1);
    assert_eq!(db.claim(&key("k"), 1, 11), 0);
    assert_eq!(db.claim(&key("k"), 2, 12), 1);
    assert_eq!(db.claim(&key("other"), 1, 13), 1);
    assert_eq!(db.count_idempotency_records(), 3);
}

#[test]
fn nothing_is_saved_before_the_claimant_commits() {
    let mut db = Database::new();
    assert!(db.get_saved_response(&key("k"), 1).is_none());
    assert_eq!(db.claim(&key("k"), 1, 10), 1);
    assert!(db.get_saved_response(&key("k"), 1).is_none());
    db.save_response(&key("k"), 1, ok()).unwrap();
    let saved = db.get_saved_response(&key("k"), 1).unwrap();
    assert_eq!(saved.status(), 200);
    assert_eq!(saved.headers()[0].name, "x-a");
    assert_eq!(saved.body(), &b"ok".to_vec());
    assert!(db.get_saved_response(&key("k"), 2).is_none());
}

#[test]
fn a_response_is_saved_once() {
    let mut db = Database::new();
    assert_eq!(db.save_response(&key("k"), 1, ok()).unwrap_err(), SaveError::NoOpenTransaction);
    assert_eq!(db.claim(&key("k"), 1, 10), 1);
    assert!(db.save_response(&key("k"), 1, ok()).is_ok());
    let other = CachedResponse::new(500, vec![], vec![]).unwrap();
    assert_eq!(db.save_response(&key("k"), 1, other).unwrap_err(), SaveError::NoOpenTransaction);
    assert_eq!(db.get_saved_response(&key("k"), 1).unwrap().status(), 200);
}

#[test]
fn an_issue_needs_an_open_transaction() {
    let mut db = Database::new();
    assert_eq!(
        db.enqueue_issue(&key("k"), 1, 1, issue("a")).unwrap_err(),
        EnqueueError::NoOpenTransaction
    );
    assert_eq!(db.claim(&key("k"), 1, 10), 1);
    assert!(db.enqueue_issue(&key("k"), 1, 1, issue("a")).is_ok());
    assert_eq!(
        db.enqueue_issue(&key("k"), 1, 2, issue("b")).unwrap_err(),
        EnqueueError::NoOpenTransaction
    );
    db.save_response(&key("k"), 1, ok()).unwrap();
    assert_eq!(
        db.enqueue_issue(&key("k"), 1, 3, issue("c")).unwrap_err(),
        EnqueueError::NoOpenTransaction
    );
}

#[test]
fn an_issue_id_is_used_once() {
    let mut db = Database::new();
    assert_eq!(db.claim(&key("a"), 1, 10), 1);
    assert_eq!(db.claim(&key("b"), 1, 10), 1);
    assert_eq!(db.claim(&key("c"), 1, 10), 1);
    assert!(db.enqueue_issue(&key("a"), 1, 1, issue("a")).is_ok());
    // Staged by another transaction.
    assert_eq!(db.enqueue_issue(&key("b"), 1, 1, issue("b")).unwrap_err(), EnqueueError::IssueExists);
    db.save_response(&key("a"), 1, ok()).unwrap();
    // Committed.
    assert_eq!(db.enqueue_issue(&key("c"), 1, 1, issue("c")).unwrap_err(), EnqueueError::IssueExists);
    assert!(db.enqueue_issue(&key("c"), 1, 2, issue("c")).is_ok());
}

#[test]
fn an_issue_and_its_tasks_appear_with_the_commit() {
    let mut db = Database::new();
    assert!(db.insert_subscriber("a@example.com"));
    assert!(db.confirm_subscriber("a@example.com"));
    assert!(db.insert_subscriber("b@example.com"));
    assert!(db.confirm_subscriber("b@example.com"));
    assert!(db.insert_subscriber("pending@example.com"));
    assert_eq!(db.claim(&key("k"), 1, 10), 1);
    db.enqueue_issue(&key("k"), 1, 7, issue("a")).unwrap();
    assert_eq!(db.count_issues(), 0);
    assert_eq!(db.count_pending_tasks(), 0);
    assert!(db.get_issue(7).is_none());
    db.save_response(&key("k"), 1, ok()).unwrap();
    assert_eq!(db.count_issues(), 1);
    assert_eq!(db.count_pending_tasks(), 2);
    assert!(db.is_pending(&EmailTask { issue_id: 7, email: "a@example.com".to_string() }));
    assert!(db.is_pending(&EmailTask { issue_id: 7, email: "b@example.com".to_string() }));
    assert!(!db.is_pending(&EmailTask { issue_id: 7, email: "pending@example.com".to_string() }));
    assert_eq!(db.get_issue(7).unwrap().title, "a");
}

#[test]
fn a_rollback_drops_the_claim_and_what_was_staged() {
    let mut db = Database::new();
    assert!(db.insert_subscriber("a@example.com"));
    assert!(db.confirm_subscriber("a@example.com"));
    assert!(!db.rollback(&key("k"), 1));
    assert_eq!(db.claim(&key("k"), 1, 10), 1);
    db.enqueue_issue(&key("k"), 1, 7, issue("a")).unwrap();
    assert!(db.rollback(&key("k"), 1));
    assert_eq!(db.count_idempotency_records(), 0);
    assert_eq!(db.count_issues(), 0);
    assert_eq!(db.count_pending_tasks(), 0);
    // The id is free again.
    assert_eq!(db.claim(&key("k"), 1, 11), 1);
    assert!(db.enqueue_issue(&key("k"), 1, 7, issue("a")).is_ok());
}

#[test]
fn a_rollback_does_not_touch_a_completed_record() {
    let mut db = Database::new();
    assert_eq!(db.claim(&key("k"), 1, 10), 1);
    db.save_response(&key("k"), 1, ok()).unwrap();
    assert!(!db.rollback(&key("k"), 1));
    assert!(db.get_saved_response(&key("k"), 1).is_some());
}

#[test]
fn deleting_or_releasing_a_task_that_is_not_pending_does_nothing() {
    let mut db = Database::new();
    let task = EmailTask { issue_id: 1, email: "a@example.com".to_string() };
    assert!(!db.delete_task(&task));
    assert!(!db.release_task(&task));
    assert!(!db.is_pending(&task));
    assert!(db.dequeue_task(1).is_none());
}
