//! One account's watch task: the state machine it follows and the decision
//! taken on every wake-up of its blocking wait.
//!
//! The task drives one protocol session in a loop: block until the server
//! signals a change, query the new message identifiers, filter them through
//! the shared dedup tracker, and emit at most one new-mail event for the
//! cycle. The blocking wait, the query and the send are performed outside the
//! core; what is done with their results — including exactly which event is
//! emitted — is decided and verified here.

use crate::dedup::{fresh_of, mark_of, observe_marks, DedupTracker};
use crate::events::WatchEvent;
use crate::models::Account;
use vstd::prelude::*;

verus! {

/// The states one account's watch task moves through. `Failed` is terminal:
/// the account is watched again only after a full supervisor restart.
#[derive(Debug, Clone, Copy, PartialEq, Eq, Structural)]
pub enum TaskState {
    /// No session yet.
    Disconnected,
    /// A connect attempt is under way.
    Connecting,
    /// Connected and blocking for server-pushed changes.
    Watching,
    /// The task ended: connect, wait, query or emission failed, or it was
    /// cancelled.
    Failed,
}

/// What happened to the task's session, driving one transition.
#[derive(Debug, Clone, Copy, PartialEq, Eq, Structural)]
pub enum TaskEvent {
    /// The task began its connect attempt.
    StartConnect,
    /// connect returned an open, authenticated, mailbox-selected session.
    ConnectSucceeded,
    /// connect failed (transport, authentication or the capability gate).
    ConnectFailed,
    /// One full watch cycle completed: back to the blocking wait.
    CycleCompleted,
    /// The blocking wait failed.
    WaitFailed,
    /// The new-identifier query failed.
    QueryFailed,
    /// A new-mail event could not be delivered: the channel's consumer is
    /// gone, so watching serves nobody any more.
    EmitFailed,
}

/// The task's next state. Any event that cannot occur in a state leaves the
/// state unchanged; every failure leads to the terminal `Failed`.
pub open spec fn spec_task_step(s: TaskState, e: TaskEvent) -> TaskState {
    match (s, e) {
        (TaskState::Disconnected, TaskEvent::StartConnect) => TaskState::Connecting,
        (TaskState::Connecting, TaskEvent::ConnectSucceeded) => TaskState::Watching,
        (TaskState::Connecting, TaskEvent::ConnectFailed) => TaskState::Failed,
        (TaskState::Watching, TaskEvent::CycleCompleted) => TaskState::Watching,
        (TaskState::Watching, TaskEvent::WaitFailed) => TaskState::Failed,
        (TaskState::Watching, TaskEvent::QueryFailed) => TaskState::Failed,
        (TaskState::Watching, TaskEvent::EmitFailed) => TaskState::Failed,
        (_, _) => s,
    }
}

/// Whether the session must be closed on this transition: cleanup happens on
/// every termination of a task that had a session, whatever state it was in.
pub open spec fn spec_must_close(s: TaskState, e: TaskEvent) -> bool {
    s == TaskState::Watching && spec_task_step(s, e) == TaskState::Failed
}

/// Take one transition of the watch task's state machine.
pub fn task_step(s: TaskState, e: TaskEvent) -> (r: (TaskState, bool))
    ensures
        r.0 == spec_task_step(s, e),
        r.1 == spec_must_close(s, e),
{
    let next = match (s, e) {
        (TaskState::Disconnected, TaskEvent::StartConnect) => TaskState::Connecting,
        (TaskState::Connecting, TaskEvent::ConnectSucceeded) => TaskState::Watching,
        (TaskState::Connecting, TaskEvent::ConnectFailed) => TaskState::Failed,
        (TaskState::Watching, TaskEvent::CycleCompleted) => TaskState::Watching,
        (TaskState::Watching, TaskEvent::WaitFailed) => TaskState::Failed,
        (TaskState::Watching, TaskEvent::QueryFailed) => TaskState::Failed,
        (TaskState::Watching, TaskEvent::EmitFailed) => TaskState::Failed,
        (_, _) => s,
    };
    let close = match (s, next) {
        (TaskState::Watching, TaskState::Failed) => true,
        (_, _) => false,
    };
    (next, close)
}

/// Law: `Failed` is terminal — no event moves a failed task anywhere.
pub proof fn lemma_failed_is_terminal(e: TaskEvent)
    ensures
        spec_task_step(TaskState::Failed, e) == TaskState::Failed,
{
}

/// One watch cycle's decision for `account`, after the server signalled a
/// change and the new-identifier query returned `candidate_ids`.
///
/// The candidates are filtered through the shared tracker, and the single
/// event to emit for the cycle is returned: a new-mail event naming exactly
/// this account when something is genuinely new (one event per change cycle,
/// not one per message), and nothing otherwise. The tracker's mark is raised
/// here, before the event is handed out; the caller sends the returned event
/// only afterwards, so a concurrent restart that reads the tracker never
/// re-notifies the same message.
pub fn decide_wakeup(
    account: Account,
    candidate_ids: &Vec<u64>,
    tracker: &mut DedupTracker,
) -> (event: Option<WatchEvent>)
    ensures
        final(tracker)@ == observe_marks(old(tracker)@, account.id, candidate_ids@),
        event is Some <==> fresh_of(mark_of(old(tracker)@, account.id), candidate_ids@).len() > 0,
        event matches Some(e) ==> e == WatchEvent::NewMail(account),
{
    let fresh = tracker.observe(account.id, candidate_ids);
    if fresh.len() > 0 {
        Some(WatchEvent::NewMail(account))
    } else {
        None
    }
}

} // verus!
