//! The event channel between the account watch tasks and the control loop.
//!
//! The channel is unbounded and many-producer, single-consumer: producers
//! never block on send, and one control loop consumes events in arrival
//! order. It carries two kinds of message: new mail arrived for one account,
//! and a request to restart the whole account set. The producing side lives
//! here, with the watcher's logic; the one consumer is the control loop that
//! owns the receiving end.

use crate::models::Account;
use vstd::prelude::*;

verus! {

/// The two commands a channel message can carry.
#[derive(Debug, Clone, PartialEq, Eq, Structural)]
pub enum ChannelCmd {
    /// New mail: notify the user for the accompanying account.
    Notify,
    /// An account was created, edited or deleted: restart the watcher.
    RestartWatcher,
}

/// A message on the event channel: new mail for one account, or a request to
/// restart the whole account set.
#[derive(Debug, Clone)]
pub enum WatchEvent {
    NewMail(Account),
    RestartRequested,
}

impl WatchEvent {
    /// The command this event carries.
    pub fn command(&self) -> (cmd: ChannelCmd)
        ensures
            cmd == (match self {
                WatchEvent::NewMail(_) => ChannelCmd::Notify,
                WatchEvent::RestartRequested => ChannelCmd::RestartWatcher,
            }),
    {
        match self {
            WatchEvent::NewMail(_) => ChannelCmd::Notify,
            WatchEvent::RestartRequested => ChannelCmd::RestartWatcher,
        }
    }
}

/// flume's sending end of a channel, declared so the watcher can hold and
/// hand out senders; its contents stay opaque.
#[verifier::external_type_specification]
#[verifier::external_body]
#[verifier::reject_recursive_types(T)]
pub struct ExSender<T>(flume::Sender<T>);

/// Relies on flume::Sender::clone: another sending end of the same channel.
#[verifier::external_body]
pub(crate) fn clone_sender(tx: &flume::Sender<WatchEvent>) -> flume::Sender<WatchEvent> {
    tx.clone()
}

/// Relies on flume::Sender::send on an unbounded channel: does not block, and
/// fails only when every receiver has been dropped.
#[verifier::external_body]
pub(crate) fn send_event(tx: &flume::Sender<WatchEvent>, event: WatchEvent) -> (delivered: bool) {
    match tx.send(event) {
        Ok(()) => true,
        Err(_) => false,
    }
}

/// Ask the control loop for a full watcher restart; sent after every
/// successful account mutation. True when the request reached the channel.
pub fn send_restart_watcher_cmd(sender: &flume::Sender<WatchEvent>) -> (delivered: bool) {
    send_event(sender, WatchEvent::RestartRequested)
}

} // verus!
