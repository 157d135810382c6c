use mailwatch::imap::{
    capability_step, has_idle_capability, CapabilityStep, ConnectionDetails, Imap, WatchError,
};
use mailwatch::models::{Account, TestConnectionAttrs};

#[test]
fn capability_gate_refuses_a_server_without_idle() {
    let caps = vec!["IMAP4rev1".to_string(), "STARTTLS".to_string()];
    assert!(!has_idle_capability(&caps));
    // The session must be logged out, and the attempt must fail with
    // CapabilityUnsupported.
    let step = capability_step(&caps);
    assert_eq!(step, CapabilityStep::LogoutUnsupported);
    assert!(matches!(step.outcome(), Err(WatchError::CapabilityUnsupported)));
}

#[test]
fn capability_gate_accepts_a_server_with_idle() {
    let caps = vec!["IMAP4rev1".to_string(), "IDLE".to_string(), "STARTTLS".to_string()];
    assert!(has_idle_capability(&caps));
    let step = capability_step(&caps);
    assert_eq!(step, CapabilityStep::ProceedToSelect);
    assert!(step.outcome().is_ok());
}

#[test]
fn capability_gate_refuses_an_empty_capability_list() {
    let step = capability_step(&Vec::new());
    assert_eq!(step, CapabilityStep::LogoutUnsupported);
}

#[test]
fn connection_test_reports_ok_on_success() {
    assert_eq!(Imap::test_connection(Ok(())), Ok("OK".to_string()));
}

#[test]
fn connection_test_reports_the_error_description() {
    let report = Imap::test_connection(Err(WatchError::ConnectError("tls handshake".to_string())));
    assert_eq!(report, Err("connection failed: tls handshake".to_string()));

    let report = Imap::test_connection(Err(WatchError::CapabilityUnsupported));
    assert_eq!(report, Err("server does not support IDLE".to_string()));
}

#[test]
fn each_failure_kind_has_its_description() {
    assert_eq!(
        WatchError::ConnectError("refused".to_string()).message(),
        "connection failed: refused"
    );
    assert_eq!(WatchError::CapabilityUnsupported.message(), "server does not support IDLE");
    assert_eq!(
        WatchError::QueryError("bad search".to_string()).message(),
        "search for new messages failed: bad search"
    );
    assert_eq!(
        WatchError::WaitError("connection reset".to_string()).message(),
        "wait for mailbox changes failed: connection reset"
    );
}

#[test]
fn details_without_a_bound_account_are_refused() {
    let imap = Imap::new(None);
    match imap.connect_account_details() {
        Err(WatchError::ConnectError(m)) => assert_eq!(m, "Invalid account"),
        other => panic!("expected a connect error, got {:?}", other),
    }
}

#[test]
fn details_for_an_account_take_its_server_and_mailbox() {
    let acc = Account {
        id: 7,
        name: "work".to_string(),
        server: "mail.example.org".to_string(),
        port: 993,
        color: "#ff0000".to_string(),
        active: true,
        username: "me@example.org".to_string(),
        mailbox: "INBOX".to_string(),
    };
    let details = Imap::details_for(&acc, "hunter".to_string());
    assert_eq!(details.server, "mail.example.org");
    assert_eq!(details.port, 993);
    assert_eq!(details.username, "me@example.org");
    assert_eq!(details.password, "hunter");
    assert_eq!(details.mailbox, "INBOX");
}

#[test]
fn test_attrs_become_connection_details() {
    let attrs = TestConnectionAttrs {
        server: "mail.example.org".to_string(),
        port: 143,
        username: "me".to_string(),
        password: "pw".to_string(),
        mailbox: "Archive".to_string(),
    };
    let details: ConnectionDetails = attrs.to_connection_details();
    assert_eq!(details.server, "mail.example.org");
    assert_eq!(details.port, 143);
    assert_eq!(details.username, "me");
    assert_eq!(details.password, "pw");
    assert_eq!(details.mailbox, "Archive");
}
