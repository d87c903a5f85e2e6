//! Delivering queued issues: one pass of the worker over the delivery queue,
//! taken one statement at a time, and the pauses between passes.

use crate::database::model::{DatabaseView, IssueView, TaskId};
use crate::database::store::Database;
use crate::database::{EmailTask, NewsletterIssue};
use crate::domain::subscriber_email::{has_at_sign, is_email_address, SubscriberEmail};
use vstd::prelude::*;
use vstd::string::*;

verus! {

/// Seconds to sleep when the queue was found empty.
pub const EMPTY_QUEUE_PAUSE_SECONDS: u64 = 10;

/// Seconds to sleep after a pass that failed.
pub const FAILURE_PAUSE_SECONDS: u64 = 1;

/// How a pass that did not fail ended.
#[derive(Debug, Clone, Copy, PartialEq, Eq, Structural)]
pub enum ExecutionOutcome {
    /// A task was taken and dealt with.
    TaskCompleted,
    /// No task was free.
    EmptyQueue,
}

/// Why a pass failed. The task it held, if any, is pending again.
#[derive(Debug, Clone, Copy, PartialEq, Eq, Structural)]
pub enum WorkerError {
    /// The issue of the task is not in the store.
    MissingIssue,
    /// A statement failed.
    StoreFailure,
}

/// The worker between passes.
#[derive(Debug, Clone, Copy, PartialEq, Eq, Structural)]
pub enum WorkerState {
    /// The queue was empty: sleep, then look again.
    Idle,
    /// There may be more work: go on.
    Draining,
}

/// The state of the worker after a pass, and the seconds to sleep before the
/// next: ten after an empty queue, none after a task, one after a failure.
pub fn next_state(outcome: &Result<ExecutionOutcome, WorkerError>) -> (next: (WorkerState, u64))
    ensures
        next == match *outcome {
            Ok(ExecutionOutcome::EmptyQueue) => (WorkerState::Idle, EMPTY_QUEUE_PAUSE_SECONDS),
            Ok(ExecutionOutcome::TaskCompleted) => (WorkerState::Draining, 0u64),
            Err(_) => (WorkerState::Draining, FAILURE_PAUSE_SECONDS),
        },
{
    match outcome {
        Ok(ExecutionOutcome::EmptyQueue) => (WorkerState::Idle, EMPTY_QUEUE_PAUSE_SECONDS),
        Ok(ExecutionOutcome::TaskCompleted) => (WorkerState::Draining, 0),
        Err(_) => (WorkerState::Draining, FAILURE_PAUSE_SECONDS),
    }
}

/// One email as it is handed to the transport.
#[derive(Debug)]
pub struct Email {
    pub recipient: SubscriberEmail,
    pub subject: String,
    pub html_content: String,
    pub text_content: String,
}

/// An email as plain values.
pub struct EmailView {
    pub recipient: Seq<char>,
    pub subject: Seq<char>,
    pub html_content: Seq<char>,
    pub text_content: Seq<char>,
}

impl View for Email {
    type V = EmailView;

    open spec fn view(&self) -> EmailView {
        EmailView {
            recipient: self.recipient@,
            subject: self.subject@,
            html_content: self.html_content@,
            text_content: self.text_content@,
        }
    }
}

impl Clone for Email {
    fn clone(&self) -> (copy: Self)
        ensures
            copy@ == self@,
    {
        Email {
            recipient: self.recipient.clone(),
            subject: self.subject.clone(),
            html_content: self.html_content.clone(),
            text_content: self.text_content.clone(),
        }
    }
}

/// The email that carries `issue` to `recipient`: the title is the subject.
pub open spec fn email_for(recipient: Seq<char>, issue: IssueView) -> EmailView {
    EmailView {
        recipient,
        subject: issue.title,
        html_content: issue.html_content,
        text_content: issue.text_content,
    }
}

/// What the worker asks for next, or how its pass ended.
#[derive(Debug)]
pub enum Delivery {
    /// Open a transaction and select one task that is not locked, locking it.
    Dequeue,
    /// Read the issue of the task.
    GetIssue { task: EmailTask, recipient: SubscriberEmail },
    /// Hand the email to the transport.
    Send { task: EmailTask, email: Email },
    /// Delete the task and commit: it is delivered, or can never be.
    Delete { task: EmailTask },
    /// Commit without deleting: the task stays for a later pass.
    Release { task: EmailTask },
    /// Roll the transaction back.
    Rollback { task: EmailTask, error: WorkerError },
    /// The pass is over.
    Done(Result<ExecutionOutcome, WorkerError>),
}

/// A delivery step as plain values.
pub enum DeliveryView {
    Dequeue,
    GetIssue { task: TaskId, recipient: Seq<char> },
    Send { task: TaskId, email: EmailView },
    Delete { task: TaskId },
    Release { task: TaskId },
    Rollback { task: TaskId, error: WorkerError },
    Done(Result<ExecutionOutcome, WorkerError>),
}

impl View for Delivery {
    type V = DeliveryView;

    open spec fn view(&self) -> DeliveryView {
        match self {
            Delivery::Dequeue => DeliveryView::Dequeue,
            Delivery::GetIssue { task, recipient } => DeliveryView::GetIssue {
                task: task@,
                recipient: recipient@,
            },
            Delivery::Send { task, email } => DeliveryView::Send { task: task@, email: email@ },
            Delivery::Delete { task } => DeliveryView::Delete { task: task@ },
            Delivery::Release { task } => DeliveryView::Release { task: task@ },
            Delivery::Rollback { task, error } => DeliveryView::Rollback {
                task: task@,
                error: *error,
            },
            Delivery::Done(result) => DeliveryView::Done(*result),
        }
    }
}

/// What came back for the step that the worker asked for.
#[derive(Debug)]
pub enum WorkerEvent {
    /// The task that was selected and locked, if one was free.
    Dequeued(Option<EmailTask>),
    /// The issue that was read, if it exists.
    Issue(Option<NewsletterIssue>),
    /// The transport took the email.
    Delivered,
    /// The transport failed.
    Undelivered,
    /// The task is deleted and the transaction committed.
    Deleted,
    /// The transaction is committed with the task in place.
    Released,
    /// The transaction is rolled back.
    RolledBack,
    /// The statement failed.
    Failed,
}

/// A worker event as plain values.
pub enum EventView {
    Dequeued(Option<TaskId>),
    Issue(Option<IssueView>),
    Delivered,
    Undelivered,
    Deleted,
    Released,
    RolledBack,
    Failed,
}

impl View for WorkerEvent {
    type V = EventView;

    open spec fn view(&self) -> EventView {
        match self {
            WorkerEvent::Dequeued(Some(task)) => EventView::Dequeued(Some(task@)),
            WorkerEvent::Dequeued(None) => EventView::Dequeued(None),
            WorkerEvent::Issue(Some(issue)) => EventView::Issue(Some(issue@)),
            WorkerEvent::Issue(None) => EventView::Issue(None),
            WorkerEvent::Delivered => EventView::Delivered,
            WorkerEvent::Undelivered => EventView::Undelivered,
            WorkerEvent::Deleted => EventView::Deleted,
            WorkerEvent::Released => EventView::Released,
            WorkerEvent::RolledBack => EventView::RolledBack,
            WorkerEvent::Failed => EventView::Failed,
        }
    }
}

impl DeliveryView {
    /// The step that follows this one when `event` comes back.
    ///
    /// An empty queue ends the pass. A task whose address is malformed is
    /// deleted without a word to the transport: it can never be delivered. A
    /// task with a well-formed address has its issue read and sent; it is
    /// deleted when the transport took the email, and left in the queue for a
    /// later pass when the transport failed. A statement that fails while a
    /// task is held rolls the transaction back and fails the pass.
    pub open spec fn next(self, event: EventView) -> DeliveryView {
        match self {
            DeliveryView::Dequeue => match event {
                EventView::Dequeued(None) => DeliveryView::Done(Ok(ExecutionOutcome::EmptyQueue)),
                EventView::Dequeued(Some(task)) => if is_email_address(task.1) {
                    DeliveryView::GetIssue { task, recipient: task.1 }
                } else {
                    DeliveryView::Delete { task }
                },
                _ => DeliveryView::Done(Err(WorkerError::StoreFailure)),
            },
            DeliveryView::GetIssue { task, recipient } => match event {
                EventView::Issue(Some(issue)) => DeliveryView::Send {
                    task,
                    email: email_for(recipient, issue),
                },
                EventView::Issue(None) => DeliveryView::Rollback {
                    task,
                    error: WorkerError::MissingIssue,
                },
                _ => DeliveryView::Rollback { task, error: WorkerError::StoreFailure },
            },
            DeliveryView::Send { task, email } => match event {
                EventView::Delivered => DeliveryView::Delete { task },
                _ => DeliveryView::Release { task },
            },
            DeliveryView::Delete { task } => match event {
                EventView::Deleted => DeliveryView::Done(Ok(ExecutionOutcome::TaskCompleted)),
                _ => DeliveryView::Rollback { task, error: WorkerError::StoreFailure },
            },
            DeliveryView::Release { task } => match event {
                EventView::Released => DeliveryView::Done(Ok(ExecutionOutcome::TaskCompleted)),
                _ => DeliveryView::Rollback { task, error: WorkerError::StoreFailure },
            },
            DeliveryView::Rollback { task, error } => DeliveryView::Done(Err(error)),
            DeliveryView::Done(result) => DeliveryView::Done(result),
        }
    }
}

/// An address that counts as well-formed is not empty and holds an `@`.
pub open spec fn is_checked(task: TaskId) -> bool {
    is_email_address(task.1) ==> has_at_sign(task.1)
}

/// The address of the task that was taken, if one was, is checked.
pub open spec fn taken_is_checked(event: EventView) -> bool {
    event matches EventView::Dequeued(Some(task)) ==> is_checked(task)
}

impl Delivery {
    /// The first step of a pass.
    pub fn start() -> (first: Delivery)
        ensures
            first@ == DeliveryView::Dequeue,
    {
        Delivery::Dequeue
    }

    /// Takes what came back for this step and says what to do next. A task
    /// whose address is empty or holds no `@` is never taken for well-formed.
    pub fn next(self, event: WorkerEvent) -> (next: Delivery)
        ensures
            next@ == self@.next(event@),
            self@ is Dequeue ==> taken_is_checked(event@),
    {
        match self {
            Delivery::Dequeue => match event {
                WorkerEvent::Dequeued(None) => Delivery::Done(Ok(ExecutionOutcome::EmptyQueue)),
                WorkerEvent::Dequeued(Some(task)) => match SubscriberEmail::parse(
                    task.email.clone(),
                ) {
                    Ok(recipient) => Delivery::GetIssue { task, recipient },
                    Err(_) => Delivery::Delete { task },
                },
                _ => Delivery::Done(Err(WorkerError::StoreFailure)),
            },
            Delivery::GetIssue { task, recipient } => match event {
                WorkerEvent::Issue(Some(issue)) => Delivery::Send {
                    task,
                    email: Email {
                        recipient,
                        subject: issue.title,
                        html_content: issue.html_content,
                        text_content: issue.text_content,
                    },
                },
                WorkerEvent::Issue(None) => Delivery::Rollback {
                    task,
                    error: WorkerError::MissingIssue,
                },
                _ => Delivery::Rollback { task, error: WorkerError::StoreFailure },
            },
            Delivery::Send { task, email } => match event {
                WorkerEvent::Delivered => Delivery::Delete { task },
                _ => Delivery::Release { task },
            },
            Delivery::Delete { task } => match event {
                WorkerEvent::Deleted => Delivery::Done(Ok(ExecutionOutcome::TaskCompleted)),
                _ => Delivery::Rollback { task, error: WorkerError::StoreFailure },
            },
            Delivery::Release { task } => match event {
                WorkerEvent::Released => Delivery::Done(Ok(ExecutionOutcome::TaskCompleted)),
                _ => Delivery::Rollback { task, error: WorkerError::StoreFailure },
            },
            Delivery::Rollback { task, error } => Delivery::Done(Err(error)),
            Delivery::Done(result) => Delivery::Done(result),
        }
    }
}

/// Whether the store in memory, standing at `db`, may answer `event` to the
/// step `step` of `worker` and stand at `after`, where the transport takes
/// an email exactly if `delivers`.
pub open spec fn answers(
    db: DatabaseView,
    worker: u64,
    step: DeliveryView,
    delivers: bool,
    after: DatabaseView,
    event: EventView,
) -> bool {
    match step {
        DeliveryView::Dequeue => match event {
            EventView::Dequeued(Some(task)) => db.is_available(task) && after == db.lock(
                task,
                worker,
            ),
            EventView::Dequeued(None) => after == db && forall|task: TaskId|
                !#[trigger] db.is_available(task),
            _ => false,
        },
        DeliveryView::GetIssue { task, recipient } => after == db && event == EventView::Issue(
            if db.issues.contains_key(task.0) {
                Some(db.issues[task.0])
            } else {
                None
            },
        ),
        DeliveryView::Send { task, email } => after == db && event == (if delivers {
            EventView::Delivered
        } else {
            EventView::Undelivered
        }),
        DeliveryView::Delete { task } => after == db.delete_task(task) && event
            == EventView::Deleted,
        DeliveryView::Release { task } => after == db.release_task(task) && event
            == EventView::Released,
        DeliveryView::Rollback { task, error } => after == db.release_task(task) && event
            == EventView::RolledBack,
        DeliveryView::Done(_) => after == db && event == EventView::Failed,
    }
}

/// Carries out `step` for `worker` against the store in memory, with a
/// transport that takes an email exactly if `transport_delivers`, and hands
/// back what came of it.
pub fn execute(db: &mut Database, worker: u64, step: &Delivery, transport_delivers: bool) -> (event:
    WorkerEvent)
    requires
        old(db).wf(),
    ensures
        final(db).wf(),
        answers(old(db)@, worker, step@, transport_delivers, final(db)@, event@),
{
    match step {
        Delivery::Dequeue => WorkerEvent::Dequeued(db.dequeue_task(worker)),
        Delivery::GetIssue { task, recipient } => WorkerEvent::Issue(db.get_issue(task.issue_id)),
        Delivery::Send { task, email } => if transport_delivers {
            WorkerEvent::Delivered
        } else {
            WorkerEvent::Undelivered
        },
        Delivery::Delete { task } => {
            db.delete_task(task);
            WorkerEvent::Deleted
        },
        Delivery::Release { task } => {
            db.release_task(task);
            WorkerEvent::Released
        },
        Delivery::Rollback { task, error } => {
            db.release_task(task);
            WorkerEvent::RolledBack
        },
        Delivery::Done(_) => WorkerEvent::Failed,
    }
}

/// What one pass of the worker did.
#[derive(Debug)]
pub struct Pass {
    /// How the pass ended.
    pub outcome: Result<ExecutionOutcome, WorkerError>,
    /// The task that the pass took from the queue, if one was free.
    pub task: Option<EmailTask>,
    /// The email that the pass handed to the transport, if it did.
    pub sent: Option<Email>,
}

/// The task in `task` as plain values.
pub open spec fn task_view(task: Option<EmailTask>) -> Option<TaskId> {
    match task {
        Some(task) => Some(task@),
        None => None,
    }
}

/// The email in `email` as plain values.
pub open spec fn sent_view(email: Option<Email>) -> Option<EmailView> {
    match email {
        Some(email) => Some(email@),
        None => None,
    }
}

/// What a pass that takes `task` from the queue of `db` does to the store,
/// how it ends, and what it hands to the transport, where the transport
/// takes an email exactly if `delivers`.
///
/// With no task free, nothing happens. A task with a malformed address is
/// deleted and the transport hears nothing of it. A task with a well-formed
/// address is sent; it is deleted if the transport took the email, and stays
/// in the queue, free again, if the transport failed.
pub open spec fn pass_result(db: DatabaseView, task: Option<TaskId>, delivers: bool) -> (
    DatabaseView,
    Result<ExecutionOutcome, WorkerError>,
    Option<EmailView>,
) {
    match task {
        None => (db, Ok(ExecutionOutcome::EmptyQueue), None),
        Some(task) => if !is_email_address(task.1) {
            (db.delete_task(task), Ok(ExecutionOutcome::TaskCompleted), None)
        } else if !db.issues.contains_key(task.0) {
            (db, Err(WorkerError::MissingIssue), None)
        } else if delivers {
            (
                db.delete_task(task),
                Ok(ExecutionOutcome::TaskCompleted),
                Some(email_for(task.1, db.issues[task.0])),
            )
        } else {
            (db, Ok(ExecutionOutcome::TaskCompleted), Some(email_for(task.1, db.issues[task.0])))
        },
    }
}

/// How many steps a pass at `step` can still take, at most.
pub open spec fn steps_left(step: DeliveryView) -> nat {
    match step {
        DeliveryView::Dequeue => 5,
        DeliveryView::GetIssue { .. } => 4,
        DeliveryView::Send { .. } => 3,
        DeliveryView::Delete { .. } => 2,
        DeliveryView::Release { .. } => 2,
        DeliveryView::Rollback { .. } => 1,
        DeliveryView::Done(_) => 0,
    }
}

/// Where a pass of `worker` that started on the store `start` stands.
pub open spec fn on_track(
    start: DatabaseView,
    db: DatabaseView,
    worker: u64,
    delivers: bool,
    step: DeliveryView,
    taken: Option<TaskId>,
    sent: Option<EmailView>,
) -> bool {
    match step {
        DeliveryView::Dequeue => db == start && taken is None && sent is None,
        DeliveryView::GetIssue { task, recipient } => {
            &&& taken == Some(task)
            &&& sent is None
            &&& start.is_available(task)
            &&& db == start.lock(task, worker)
            &&& recipient == task.1
            &&& is_email_address(task.1)
        },
        DeliveryView::Send { task, email } => {
            &&& taken == Some(task)
            &&& sent is None
            &&& start.is_available(task)
            &&& db == start.lock(task, worker)
            &&& is_email_address(task.1)
            &&& start.issues.contains_key(task.0)
            &&& email == email_for(task.1, start.issues[task.0])
        },
        DeliveryView::Delete { task } => {
            &&& taken == Some(task)
            &&& start.is_available(task)
            &&& db == start.lock(task, worker)
            &&& if is_email_address(task.1) {
                &&& start.issues.contains_key(task.0)
                &&& delivers
                &&& sent == Some(email_for(task.1, start.issues[task.0]))
            } else {
                sent is None
            }
        },
        DeliveryView::Release { task } => {
            &&& taken == Some(task)
            &&& start.is_available(task)
            &&& db == start.lock(task, worker)
            &&& is_email_address(task.1)
            &&& start.issues.contains_key(task.0)
            &&& !delivers
            &&& sent == Some(email_for(task.1, start.issues[task.0]))
        },
        DeliveryView::Rollback { task, error } => {
            &&& taken == Some(task)
            &&& sent is None
            &&& start.is_available(task)
            &&& db == start.lock(task, worker)
            &&& is_email_address(task.1)
            &&& !start.issues.contains_key(task.0)
            &&& error == WorkerError::MissingIssue
        },
        DeliveryView::Done(outcome) => {
            &&& (db, outcome, sent) == pass_result(start, taken, delivers)
            &&& match taken {
                Some(task) => start.is_available(task),
                None => forall|task: TaskId| !#[trigger] start.is_available(task),
            }
        },
    }
}

/// Deleting a task that a worker has locked is deleting the task; releasing
/// a task that was free before it was locked gives the store back as it was.
pub proof fn lemma_lock_then_finish(db: DatabaseView, task: TaskId, worker: u64)
    requires
        db.is_available(task),
    ensures
        db.lock(task, worker).delete_task(task) == db.delete_task(task),
        db.lock(task, worker).release_task(task) == db,
{
    assert(db.lock(task, worker).delete_task(task).queue =~= db.delete_task(task).queue);
    assert(db.lock(task, worker).release_task(task).queue =~= db.queue);
}

/// One pass of `worker` over the delivery queue of the store in memory, with
/// a transport that takes an email exactly if `transport_delivers`.
///
/// The pass takes a task that no worker holds, if there is one, and does
/// with it what `pass_result` says. An address that is empty or holds no `@`
/// is never taken for well-formed.
pub fn try_execute_task(db: &mut Database, worker: u64, transport_delivers: bool) -> (pass: Pass)
    requires
        old(db).wf(),
    ensures
        final(db).wf(),
        match pass.task {
            Some(task) => old(db)@.is_available(task@) && is_checked(task@),
            None => forall|task: TaskId| !#[trigger] old(db)@.is_available(task),
        },
        (final(db)@, pass.outcome, sent_view(pass.sent)) == pass_result(
            old(db)@,
            task_view(pass.task),
            transport_delivers,
        ),
{
    let mut step = Delivery::start();
    let mut task: Option<EmailTask> = None;
    let mut sent: Option<Email> = None;
    loop
        invariant
            db.wf(),
            on_track(
                old(db)@,
                db@,
                worker,
                transport_delivers,
                step@,
                task_view(task),
                sent_view(sent),
            ),
            task matches Some(taken) ==> is_checked(taken@),
        decreases steps_left(step@),
    {
        if let Delivery::Done(outcome) = &step {
            return Pass { outcome: *outcome, task, sent };
        }
        if let Delivery::Send { task: _, email } = &step {
            sent = Some(email.clone());
        }
        let event = execute(db, worker, &step, transport_delivers);
        if let WorkerEvent::Dequeued(Some(taken)) = &event {
            task = Some(taken.clone());
        }
        proof {
            if task_view(task) is Some && old(db)@.is_available(task_view(task).unwrap()) {
                lemma_lock_then_finish(old(db)@, task_view(task).unwrap(), worker);
            }
        }
        step = step.next(event);
    }
}

} // verus!
