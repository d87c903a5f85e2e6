use zero2prod::database::{Database, EmailTask, NewsletterIssue};
use zero2prod::idempotency::{CachedResponse, IdempotencyKey};
use zero2prod::issue_delivery_worker::{
    execute, next_state, try_execute_task, Delivery, ExecutionOutcome, WorkerError, WorkerEvent,
    WorkerState,
};

fn issue() -> NewsletterIssue {
    NewsletterIssue {
        title: "Title".to_string(),
        text_content: "text".to_string(),
        html_content: "<p>html</p>".to_string(),
        published_at: 1_000,
    }
}

/// A store in which one issue with id 5 is published to the given
/// subscribers, whatever their addresses look like.
fn store_with_issue(addresses: &[&str]) -> Database {
    let mut db = Database::new();
    for address in addresses {
        assert!(db.insert_subscriber(address));
        assert!(db.confirm_subscriber(address));
    }
    let key = IdempotencyKey::try_from("key".to_string()).unwrap();
    assert_eq!(db.claim(&key, 1, 1_000), 1);
    db.enqueue_issue(&key, 1, 5, issue()).unwrap();
    db.save_response(&key, 1, CachedResponse::new(303, vec![], vec![]).unwrap()).unwrap();
    db
}

fn task(address: &str) -> EmailTask {
    EmailTask { issue_id: 5, email: address.to_string() }
}

#[test]
fn an_empty_queue_ends_the_pass() {
    let mut db = Database::new();
    let pass = try_execute_task(&mut db, 1, true);
    assert_eq!(pass.outcome, Ok(ExecutionOutcome::EmptyQueue));
    assert!(pass.task.is_none());
    assert!(pass.sent.is_none());
}

#[test]
fn transient_errors_get_retried() {
    let mut db = store_with_issue(&["reader@example.com"]);
    let first = try_execute_task(&mut db, 1, false);
    assert_eq!(first.outcome, Ok(ExecutionOutcome::TaskCompleted));
    assert!(first.sent.is_some());
    assert!(db.is_pending(&task("reader@example.com")));
    assert_eq!(db.count_pending_tasks(), 1);
    let second = try_execute_task(&mut db, 1, true);
    assert_eq!(second.outcome, Ok(ExecutionOutcome::TaskCompleted));
    assert!(second.sent.is_some());
    assert!(!db.is_pending(&task("reader@example.com")));
    let third = try_execute_task(&mut db, 1, true);
    assert_eq!(third.outcome, Ok(ExecutionOutcome::EmptyQueue));
    assert!(third.sent.is_none());
}

#[test]
fn a_task_stays_as_long_as_the_transport_fails() {
    let mut db = store_with_issue(&["reader@example.com"]);
    let mut invocations = 0;
    for _ in 0..4 {
        let pass = try_execute_task(&mut db, 1, false);
        assert_eq!(pass.outcome, Ok(ExecutionOutcome::TaskCompleted));
        if pass.sent.is_some() {
            invocations += 1;
        }
        assert_eq!(db.count_pending_tasks(), 1);
    }
    assert_eq!(invocations, 4);
    let pass = try_execute_task(&mut db, 1, true);
    assert!(pass.sent.is_some());
    assert_eq!(db.count_pending_tasks(), 0);
}

#[test]
fn a_malformed_address_is_dropped_without_a_delivery_attempt() {
    let mut db = store_with_issue(&["definitely-not-an-email"]);
    assert_eq!(db.count_pending_tasks(), 1);
    let pass = try_execute_task(&mut db, 1, true);
    assert_eq!(pass.outcome, Ok(ExecutionOutcome::TaskCompleted));
    assert_eq!(pass.task.unwrap().email, "definitely-not-an-email");
    assert!(pass.sent.is_none());
    assert_eq!(db.count_pending_tasks(), 0);
    let next = try_execute_task(&mut db, 1, true);
    assert_eq!(next.outcome, Ok(ExecutionOutcome::EmptyQueue));
}

#[test]
fn a_malformed_address_is_dropped_even_when_the_transport_is_down() {
    let mut db = store_with_issue(&["@"]);
    let pass = try_execute_task(&mut db, 1, false);
    assert_eq!(pass.outcome, Ok(ExecutionOutcome::TaskCompleted));
    assert!(pass.sent.is_none());
    assert_eq!(db.count_pending_tasks(), 0);
}

#[test]
fn two_workers_never_hold_the_same_task() {
    let mut db = store_with_issue(&["one@example.com", "two@example.com"]);
    let first = db.dequeue_task(1).unwrap();
    let second = db.dequeue_task(2).unwrap();
    assert_ne!(first.email, second.email);
    // Both tasks are held: a third worker finds nothing to do.
    assert!(db.dequeue_task(3).is_none());
    assert_eq!(db.count_pending_tasks(), 2);
    assert!(db.delete_task(&first));
    assert!(db.release_task(&second));
    // The released task, and only that, can be taken again.
    let again = db.dequeue_task(3).unwrap();
    assert_eq!(again.email, second.email);
    assert!(db.dequeue_task(1).is_none());
}

#[test]
fn two_workers_deliver_every_task_once() {
    let mut db = store_with_issue(&["one@example.com", "two@example.com", "three@example.com"]);
    let mut recipients = Vec::new();
    let mut worker = 1;
    loop {
        let pass = try_execute_task(&mut db, worker, true);
        if pass.outcome == Ok(ExecutionOutcome::EmptyQueue) {
            break;
        }
        recipients.push(pass.sent.unwrap().recipient.to_string());
        worker = 3 - worker;
    }
    recipients.sort();
    assert_eq!(recipients, vec!["one@example.com", "three@example.com", "two@example.com"]);
}

#[test]
fn a_pass_that_runs_while_another_holds_the_only_task_finds_the_queue_empty() {
    let mut db = store_with_issue(&["reader@example.com"]);
    let held = db.dequeue_task(1).unwrap();
    let pass = try_execute_task(&mut db, 2, true);
    assert_eq!(pass.outcome, Ok(ExecutionOutcome::EmptyQueue));
    assert!(pass.sent.is_none());
    assert!(db.is_pending(&held));
}

#[test]
fn the_steps_of_a_delivery_follow_the_store() {
    let mut db = store_with_issue(&["reader@example.com"]);
    let step = Delivery::start();
    assert!(matches!(step, Delivery::Dequeue));
    let event = execute(&mut db, 1, &step, true);
    let step = step.next(event);
    assert!(matches!(step, Delivery::GetIssue { .. }));
    let event = execute(&mut db, 1, &step, true);
    let step = step.next(event);
    match &step {
        Delivery::Send { task, email } => {
            assert_eq!(task.issue_id, 5);
            assert_eq!(email.recipient.as_ref(), "reader@example.com");
            assert_eq!(email.subject, "Title");
        }
        other => panic!("unexpected step {:?}", other),
    }
    let step = step.next(WorkerEvent::Delivered);
    assert!(matches!(step, Delivery::Delete { .. }));
    let event = execute(&mut db, 1, &step, true);
    let step = step.next(event);
    assert!(matches!(step, Delivery::Done(Ok(ExecutionOutcome::TaskCompleted))));
    assert_eq!(db.count_pending_tasks(), 0);
}

#[test]
fn a_failing_transport_leads_to_a_release() {
    let step = Delivery::Dequeue.next(WorkerEvent::Dequeued(Some(task("reader@example.com"))));
    let step = step.next(WorkerEvent::Issue(Some(issue())));
    let step = step.next(WorkerEvent::Undelivered);
    assert!(matches!(step, Delivery::Release { .. }));
    let step = step.next(WorkerEvent::Released);
    assert!(matches!(step, Delivery::Done(Ok(ExecutionOutcome::TaskCompleted))));
}

#[test]
fn a_missing_issue_rolls_back_and_fails_the_pass() {
    let step = Delivery::Dequeue.next(WorkerEvent::Dequeued(Some(task("reader@example.com"))));
    let step = step.next(WorkerEvent::Issue(None));
    assert!(matches!(step, Delivery::Rollback { error: WorkerError::MissingIssue, .. }));
    let step = step.next(WorkerEvent::RolledBack);
    assert!(matches!(step, Delivery::Done(Err(WorkerError::MissingIssue))));
}

#[test]
fn a_failing_store_rolls_back_and_fails_the_pass() {
    let step = Delivery::Dequeue.next(WorkerEvent::Failed);
    assert!(matches!(step, Delivery::Done(Err(WorkerError::StoreFailure))));
    let step = Delivery::Dequeue.next(WorkerEvent::Dequeued(Some(task("reader@example.com"))));
    let step = step.next(WorkerEvent::Failed);
    assert!(matches!(step, Delivery::Rollback { error: WorkerError::StoreFailure, .. }));
    let step = Delivery::Delete { task: task("reader@example.com") }.next(WorkerEvent::Failed);
    assert!(matches!(step, Delivery::Rollback { error: WorkerError::StoreFailure, .. }));
}

#[test]
fn the_worker_sleeps_ten_seconds_on_an_empty_queue() {
    assert_eq!(next_state(&Ok(ExecutionOutcome::EmptyQueue)), (WorkerState::Idle, 10));
}

#[test]
fn the_worker_goes_on_at_once_after_a_task() {
    assert_eq!(next_state(&Ok(ExecutionOutcome::TaskCompleted)), (WorkerState::Draining, 0));
}

#[test]
fn the_worker_sleeps_one_second_after_a_failure() {
    assert_eq!(next_state(&Err(WorkerError::StoreFailure)), (WorkerState::Draining, 1));
    assert_eq!(next_state(&Err(WorkerError::MissingIssue)), (WorkerState::Draining, 1));
}

#[test]
fn the_issue_of_a_task_can_be_read() {
    let db = store_with_issue(&["reader@example.com"]);
    let found = db.get_issue(5).unwrap();
    assert_eq!(found.title, "Title");
    assert_eq!(found.text_content, "text");
    assert_eq!(found.html_content, "<p>html</p>");
    assert_eq!(found.published_at, 1_000);
    assert!(db.get_issue(6).is_none());
}
