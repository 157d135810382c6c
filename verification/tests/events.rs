use mailwatch::events::{send_restart_watcher_cmd, ChannelCmd, WatchEvent};
use mailwatch::models::Account;

fn channel_account() -> Account {
    Account {
        id: 9,
        name: "inbox watcher".to_string(),
        server: "imap.example.org".to_string(),
        port: 993,
        color: "#123456".to_string(),
        active: true,
        username: "watcher@example.org".to_string(),
        mailbox: "INBOX".to_string(),
    }
}

#[test]
fn events_arrive_in_order() {
    let (tx, rx) = flume::unbounded::<WatchEvent>();
    tx.send(WatchEvent::NewMail(channel_account())).unwrap();
    tx.send(WatchEvent::RestartRequested).unwrap();

    match rx.recv() {
        Ok(WatchEvent::NewMail(acc)) => assert_eq!(acc.id, 9),
        other => panic!("expected new mail first, got {:?}", other),
    }
    assert!(matches!(rx.recv(), Ok(WatchEvent::RestartRequested)));
    assert!(rx.try_recv().is_err());
}

#[test]
fn every_event_names_its_command() {
    assert_eq!(WatchEvent::NewMail(channel_account()).command(), ChannelCmd::Notify);
    assert_eq!(WatchEvent::RestartRequested.command(), ChannelCmd::RestartWatcher);
}

#[test]
fn restart_request_reaches_the_consumer() {
    let (tx, rx) = flume::unbounded::<WatchEvent>();
    assert!(send_restart_watcher_cmd(&tx));
    let event = rx.recv().expect("a restart request was sent");
    assert_eq!(event.command(), ChannelCmd::RestartWatcher);
}

#[test]
fn cloned_senders_feed_the_same_consumer() {
    let (tx, rx) = flume::unbounded::<WatchEvent>();
    let tx2 = tx.clone();
    assert!(send_restart_watcher_cmd(&tx2));
    assert!(rx.recv().is_ok());
}

#[test]
fn send_fails_once_every_receiver_is_gone() {
    let (tx, rx) = flume::unbounded::<WatchEvent>();
    drop(rx);
    assert!(!send_restart_watcher_cmd(&tx));
}

#[test]
fn recv_ends_once_every_sender_is_gone() {
    let (tx, rx) = flume::unbounded::<WatchEvent>();
    drop(tx);
    assert!(rx.recv().is_err());
}
