//! Core of a mailbox watcher: one long-lived authenticated session per
//! account, a mandatory push-capability gate at connect, de-duplication of
//! new-mail notifications across wake-ups and restarts, and a supervisor that
//! starts, shuts down and restarts the whole account set without leaking
//! tasks or double-firing notifications.
//!
//! Everything the watcher decides is verified here; the transports it drives
//! (IMAP over TLS, the account database, the platform secret store, the
//! desktop notifier) stay outside, behind the contracts in these modules.

pub mod db;
pub mod dedup;
pub mod events;
pub mod imap;
pub mod keychain;
pub mod models;
pub mod supervisor;
pub mod watch;
