//! The per-account protocol session: connection details, the mandatory
//! capability gate of the connect handshake, and the one-shot connectivity
//! test.
//!
//! The transport itself (TLS, login, mailbox selection, the blocking wait) is
//! driven outside the core; every decision the handshake takes is made here.

use crate::keychain::{Keychain, KeychainError};
use crate::models::{Account, TestConnectionAttrs};
use vstd::prelude::*;

verus! {

/// Why a watch task failed. Every failure is local to one account's task:
/// it is reported for that account and the task terminates; it never
/// propagates to the supervisor or to other accounts' tasks.
#[derive(Debug, Clone)]
pub enum WatchError {
    /// Transport or authentication failure while connecting; carries the
    /// transport's or server's description.
    ConnectError(String),
    /// The server lacks the push-notification (IDLE) capability; fatal for
    /// the account, never retried.
    CapabilityUnsupported,
    /// The search for new message identifiers failed.
    QueryError(String),
    /// The blocking wait for a mailbox change failed.
    WaitError(String),
}

/// The description `WatchError::message` renders for `e`.
pub open spec fn spec_error_message(e: WatchError) -> Seq<char> {
    match e {
        WatchError::ConnectError(s) => "connection failed: "@ + s@,
        WatchError::CapabilityUnsupported => "server does not support IDLE"@,
        WatchError::QueryError(s) => "search for new messages failed: "@ + s@,
        WatchError::WaitError(s) => "wait for mailbox changes failed: "@ + s@,
    }
}

impl WatchError {
    /// A human-readable description of the failure.
    pub fn message(&self) -> (m: String)
        ensures
            m@ == spec_error_message(*self),
    {
        match self {
            WatchError::ConnectError(s) => {
                let mut m = String::from_str("connection failed: ");
                m.append(s.as_str());
                m
            },
            WatchError::CapabilityUnsupported => {
                String::from_str("server does not support IDLE")
            },
            WatchError::QueryError(s) => {
                let mut m = String::from_str("search for new messages failed: ");
                m.append(s.as_str());
                m
            },
            WatchError::WaitError(s) => {
                let mut m = String::from_str("wait for mailbox changes failed: ");
                m.append(s.as_str());
                m
            },
        }
    }
}

/// Server address, credentials and mailbox for one connection attempt.
#[derive(Debug, Clone)]
pub struct ConnectionDetails {
    /// Server host
    pub server: String,
    /// Server port
    pub port: i64,
    /// Server username
    pub username: String,
    /// Server password
    pub password: String,
    /// Mailbox name
    pub mailbox: String,
}

impl TestConnectionAttrs {
    /// The connection to attempt for the one-shot connectivity test.
    pub fn to_connection_details(&self) -> (c: ConnectionDetails)
        ensures
            c.server == self.server,
            c.port == self.port,
            c.username == self.username,
            c.password == self.password,
            c.mailbox == self.mailbox,
    {
        ConnectionDetails {
            server: self.server.clone(),
            port: self.port,
            username: self.username.clone(),
            password: self.password.clone(),
            mailbox: self.mailbox.clone(),
        }
    }
}

/// The capability every watched server must advertise: push notification of
/// mailbox changes without polling.
pub open spec fn spec_idle_capability() -> Seq<char> {
    "IDLE"@
}

/// Whether the advertised capability list contains IDLE.
pub open spec fn spec_has_idle(caps: Seq<String>) -> bool {
    exists|i: int| 0 <= i < caps.len() && caps[i]@ == spec_idle_capability()
}

/// What the connect routine must do once authentication has succeeded and the
/// server has advertised its capabilities.
#[derive(Debug, Clone, PartialEq, Eq, Structural)]
pub enum CapabilityStep {
    /// The server can push: select the mailbox and keep the session.
    ProceedToSelect,
    /// The server cannot push: log the session out cleanly, then fail with
    /// CapabilityUnsupported.
    LogoutUnsupported,
}

/// The step the capability gate takes for the advertised list.
pub open spec fn spec_capability_step(caps: Seq<String>) -> CapabilityStep {
    if spec_has_idle(caps) {
        CapabilityStep::ProceedToSelect
    } else {
        CapabilityStep::LogoutUnsupported
    }
}

/// The connect outcome a capability step ends in.
pub open spec fn spec_step_outcome(step: CapabilityStep) -> Result<(), WatchError> {
    match step {
        CapabilityStep::ProceedToSelect => Ok(()),
        CapabilityStep::LogoutUnsupported => Err(WatchError::CapabilityUnsupported),
    }
}

/// Whether the advertised capability list contains IDLE.
pub fn has_idle_capability(caps: &Vec<String>) -> (r: bool)
    ensures
        r == spec_has_idle(caps@),
{
    let idle = String::from_str("IDLE");
    let mut i: usize = 0;
    while i < caps.len()
        invariant
            i <= caps@.len(),
            idle@ == spec_idle_capability(),
            forall|j: int| 0 <= j < i ==> caps@[j]@ != spec_idle_capability(),
        decreases caps@.len() - i,
    {
        let cap = &caps[i];
        if cap.eq(&idle) {
            return true;
        }
        i += 1;
    }
    false
}

/// The capability gate of connect: decide, from the advertised capability
/// list, whether the authenticated session is kept (and the mailbox selected)
/// or logged out and refused.
pub fn capability_step(caps: &Vec<String>) -> (step: CapabilityStep)
    ensures
        step == spec_capability_step(caps@),
{
    if has_idle_capability(caps) {
        CapabilityStep::ProceedToSelect
    } else {
        CapabilityStep::LogoutUnsupported
    }
}

impl CapabilityStep {
    /// The connect outcome this step ends in: refused exactly when the
    /// session had to be logged out.
    pub fn outcome(&self) -> (r: Result<(), WatchError>)
        ensures
            r == spec_step_outcome(*self),
    {
        match self {
            CapabilityStep::ProceedToSelect => Ok(()),
            CapabilityStep::LogoutUnsupported => Err(WatchError::CapabilityUnsupported),
        }
    }
}

/// Law: the capability gate. A connect attempt whose session advertises no
/// push-notification capability fails with CapabilityUnsupported, and only by
/// way of the step that logs the session out before returning.
pub proof fn lemma_capability_gate(caps: Seq<String>)
    requires
        !spec_has_idle(caps),
    ensures
        spec_capability_step(caps) == CapabilityStep::LogoutUnsupported,
        spec_step_outcome(spec_capability_step(caps)) == Result::<(), WatchError>::Err(
            WatchError::CapabilityUnsupported,
        ),
{
}

/// Driver of one account's protocol session; bound to no account for the
/// one-shot connectivity test.
#[derive(Debug, Clone)]
pub struct Imap {
    account: Option<Account>,
}

impl Imap {
    /// The account this driver is bound to.
    pub closed spec fn spec_account(&self) -> Option<Account> {
        self.account
    }

    pub fn new(account: Option<Account>) -> (imap: Imap)
        ensures
            imap.spec_account() == account,
    {
        Imap { account }
    }

    /// The connection to open for `acc` with the password the secret store
    /// holds at this moment.
    pub fn details_for(acc: &Account, password: String) -> (c: ConnectionDetails)
        ensures
            c.server == acc.server,
            c.port == acc.port,
            c.username == acc.username,
            c.password == password,
            c.mailbox == acc.mailbox,
    {
        ConnectionDetails {
            server: acc.server.clone(),
            port: acc.port,
            username: acc.username.clone(),
            password,
            mailbox: acc.mailbox.clone(),
        }
    }

    /// The connection to open for the bound account. The password is fetched
    /// from the secret store now, never cached across reconnects. Fails with
    /// a connect error when no account is bound, or when the store yields no
    /// password.
    pub fn connect_account_details(&self) -> (r: Result<ConnectionDetails, WatchError>)
        ensures
            self.spec_account() is None ==> (r matches Err(WatchError::ConnectError(m))
                && m@ == "Invalid account"@),
            r matches Ok(c) ==> {
                &&& self.spec_account() matches Some(acc)
                &&& c.server == acc.server
                &&& c.port == acc.port
                &&& c.username == acc.username
                &&& c.mailbox == acc.mailbox
            },
            r matches Err(e) ==> e is ConnectError,
    {
        match &self.account {
            None => Err(WatchError::ConnectError(String::from_str("Invalid account"))),
            Some(acc) => {
                let keychain = Keychain::new(acc.id, acc.username.as_str());
                match keychain.get_password() {
                    Ok(password) => Ok(Self::details_for(acc, password)),
                    Err(e) => Err(WatchError::ConnectError(e.message())),
                }
            },
        }
    }

    /// The report of the one-shot connectivity test, given how the connect
    /// attempt (followed by an immediate logout) went: "OK" on success,
    /// otherwise the error's description. The test never touches the dedup
    /// tracker or the supervisor's task set.
    pub fn test_connection(outcome: Result<(), WatchError>) -> (r: Result<String, String>)
        ensures
            r is Ok <==> outcome is Ok,
            r matches Ok(s) ==> s@ == "OK"@,
            outcome matches Err(e) ==> (r matches Err(m) && m@ == spec_error_message(e)),
    {
        match outcome {
            Ok(()) => Ok(String::from_str("OK")),
            Err(e) => Err(e.message()),
        }
    }
}

} // verus!
