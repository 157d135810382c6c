//! Data carried between the watcher core and its collaborators.

use vstd::prelude::*;

verus! {

/// A configured mailbox target, watched independently of all others.
///
/// The identifier is stable and unique: an account with the same identifier
/// always denotes the same logical mailbox target, even if its host or
/// credentials change. Credentials are not part of this struct; they are
/// fetched on demand from the secret store, keyed by (identifier, username).
#[derive(Debug, Clone)]
pub struct Account {
    pub id: i64,
    pub name: String,
    pub server: String,
    pub port: i64,
    pub color: String,
    pub active: bool,
    pub username: String,
    pub mailbox: String,
}

/// User preferences for how notifications are rendered.
#[derive(Debug, Clone)]
pub struct Settings {
    pub notifications: Option<bool>,
    pub sound: Option<bool>,
    pub preview: Option<bool>,
}

/// Attributes supplied when a new account is created.
#[derive(Debug, Clone)]
pub struct NewAccountAttrs {
    pub name: String,
    pub server: String,
    pub color: String,
    pub active: bool,
    pub username: String,
    pub password: String,
    pub mailbox: String,
    pub port: i64,
}

/// Attributes supplied when an existing account is edited. A password is
/// only stored anew when one was provided.
#[derive(Debug, Clone)]
pub struct UpdateAccountAttrs {
    pub name: String,
    pub server: String,
    pub color: String,
    pub username: String,
    pub mailbox: String,
    pub port: i64,
    pub password: Option<String>,
}

/// Raw connection attributes for the one-shot connectivity test; they are not
/// yet persisted as an account.
#[derive(Debug, Clone)]
pub struct TestConnectionAttrs {
    pub server: String,
    pub port: i64,
    pub username: String,
    pub password: String,
    pub mailbox: String,
}

/// Settings changes requested by the user; an absent flag stands for false.
#[derive(Debug, Clone)]
pub struct UpdateSettingsAttrs {
    pub notifications: Option<bool>,
    pub sound: Option<bool>,
    pub preview: Option<bool>,
}

impl UpdateSettingsAttrs {
    /// The flag values to store: absent flags default to false.
    pub fn stored_flags(&self) -> (r: (bool, bool, bool))
        ensures
            r.0 == self.notifications.unwrap_or(false),
            r.1 == self.sound.unwrap_or(false),
            r.2 == self.preview.unwrap_or(false),
    {
        (
            self.notifications.unwrap_or(false),
            self.sound.unwrap_or(false),
            self.preview.unwrap_or(false),
        )
    }
}

/// What `str::trim` leaves of `s`: `s` without leading and trailing
/// whitespace.
pub uninterp spec fn trimmed_of(s: Seq<char>) -> Seq<char>;

/// Relies on str::trim: returns the input without leading and trailing
/// whitespace, so never longer than the input.
#[verifier::external_body]
fn trimmed(s: &str) -> (t: String)
    ensures
        t@ == trimmed_of(s@),
        t@.len() <= s@.len(),
{
    s.trim().to_string()
}

impl UpdateAccountAttrs {
    /// Whether the edit asks for the stored password to change: a password
    /// was provided and is not blank (not whitespace-only).
    pub fn password_update_requested(&self) -> (r: bool)
        ensures
            r == match self.password {
                Some(p) => trimmed_of(p@).len() > 0,
                None => false,
            },
    {
        match &self.password {
            Some(p) => !trimmed(p.as_str()).as_str().is_empty(),
            None => false,
        }
    }
}

} // verus!
