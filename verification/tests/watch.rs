use mailwatch::dedup::DedupTracker;
use mailwatch::events::WatchEvent;
use mailwatch::models::Account;
use mailwatch::watch::{decide_wakeup, task_step, TaskEvent, TaskState};

fn watched_account(id: i64, name: &str) -> Account {
    Account {
        id,
        name: name.to_string(),
        server: "imap.example.org".to_string(),
        port: 993,
        color: "#0000ff".to_string(),
        active: true,
        username: format!("{}@example.org", name),
        mailbox: "INBOX".to_string(),
    }
}

/// Run one wake-up for `account` and send the decided event, as the task
/// runner does: mark first, send after.
fn wake(
    account: &Account,
    candidate_ids: Vec<u64>,
    tracker: &mut DedupTracker,
    tx: &flume::Sender<WatchEvent>,
) -> bool {
    match decide_wakeup(account.clone(), &candidate_ids, tracker) {
        Some(event) => tx.send(event).is_ok(),
        None => false,
    }
}

#[test]
fn two_accounts_scenario_notifies_once_per_genuine_wake() {
    // Account A (id 1) wakes with {10}, then with {10, 11}; B (id 2) never
    // wakes. Expected: exactly one event naming A per wake of A, none for B.
    let (tx, rx) = flume::unbounded::<WatchEvent>();
    let mut tracker = DedupTracker::new();
    let a = watched_account(1, "a");
    let _b = watched_account(2, "b");

    assert!(wake(&a, vec![10], &mut tracker, &tx));
    assert_eq!(tracker.high_water_mark(1), 10);

    assert!(wake(&a, vec![10, 11], &mut tracker, &tx));
    assert_eq!(tracker.high_water_mark(1), 11);

    let mut events_for_a: u32 = 0;
    while let Ok(event) = rx.try_recv() {
        match event {
            WatchEvent::NewMail(acc) => {
                assert_eq!(acc.id, 1);
                events_for_a += 1;
            }
            WatchEvent::RestartRequested => panic!("no restart was requested"),
        }
    }
    assert_eq!(events_for_a, 2);
    assert_eq!(tracker.high_water_mark(2), 0);
}

#[test]
fn decided_event_names_exactly_the_woken_account() {
    let mut tracker = DedupTracker::new();
    let a = watched_account(7, "seven");

    match decide_wakeup(a.clone(), &vec![42], &mut tracker) {
        Some(WatchEvent::NewMail(acc)) => {
            assert_eq!(acc.id, 7);
            assert_eq!(acc.name, "seven");
            assert_eq!(acc.username, "seven@example.org");
        }
        other => panic!("expected a new-mail event for the account, got {:?}", other),
    }
}

#[test]
fn wakeup_with_nothing_new_decides_no_event() {
    let mut tracker = DedupTracker::new();
    let a = watched_account(1, "a");

    assert!(decide_wakeup(a.clone(), &vec![10], &mut tracker).is_some());

    // The same identifiers again: nothing genuinely new.
    assert!(decide_wakeup(a.clone(), &vec![10], &mut tracker).is_none());

    // An empty wake-up reports nothing either.
    assert!(decide_wakeup(a, &vec![], &mut tracker).is_none());
}

#[test]
fn wakeup_emits_one_event_per_cycle_not_per_message() {
    let (tx, rx) = flume::unbounded::<WatchEvent>();
    let mut tracker = DedupTracker::new();
    let a = watched_account(1, "a");

    assert!(wake(&a, vec![3, 4, 5], &mut tracker, &tx));
    assert!(rx.try_recv().is_ok());
    assert!(rx.try_recv().is_err());
}

#[test]
fn task_states_follow_the_machine() {
    let (s, close) = task_step(TaskState::Disconnected, TaskEvent::StartConnect);
    assert_eq!(s, TaskState::Connecting);
    assert!(!close);

    let (s, close) = task_step(s, TaskEvent::ConnectSucceeded);
    assert_eq!(s, TaskState::Watching);
    assert!(!close);

    let (s, close) = task_step(s, TaskEvent::CycleCompleted);
    assert_eq!(s, TaskState::Watching);
    assert!(!close);

    let (s, close) = task_step(s, TaskEvent::WaitFailed);
    assert_eq!(s, TaskState::Failed);
    assert!(close);
}

#[test]
fn connect_failure_terminates_without_session_cleanup() {
    let (s, _) = task_step(TaskState::Disconnected, TaskEvent::StartConnect);
    let (s, close) = task_step(s, TaskEvent::ConnectFailed);
    assert_eq!(s, TaskState::Failed);
    assert!(!close);
}

#[test]
fn query_failure_closes_the_session() {
    let (s, close) = task_step(TaskState::Watching, TaskEvent::QueryFailed);
    assert_eq!(s, TaskState::Failed);
    assert!(close);
}

#[test]
fn undeliverable_event_ends_the_task_and_closes_the_session() {
    let (s, close) = task_step(TaskState::Watching, TaskEvent::EmitFailed);
    assert_eq!(s, TaskState::Failed);
    assert!(close);
}

#[test]
fn failed_state_is_terminal() {
    for event in [
        TaskEvent::StartConnect,
        TaskEvent::ConnectSucceeded,
        TaskEvent::ConnectFailed,
        TaskEvent::CycleCompleted,
        TaskEvent::WaitFailed,
        TaskEvent::QueryFailed,
        TaskEvent::EmitFailed,
    ] {
        let (s, close) = task_step(TaskState::Failed, event);
        assert_eq!(s, TaskState::Failed);
        assert!(!close);
    }
}
