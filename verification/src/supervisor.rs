//! The watch supervisor: owner of the set of running account watch tasks.
//!
//! It records one running task per account, in spawn order, together with the
//! sender end of the event channel that every task emits on. `start` refuses
//! to run over a live task set; `shutdown` cancels and clears it and is
//! idempotent; `restart` is exactly shutdown followed by start — the only way
//! an account mutation takes effect, since accounts are never changed on a
//! live session.

use crate::events::{clone_sender, WatchEvent};
use crate::models::Account;
use vstd::prelude::*;

verus! {

/// The one error the supervisor surfaces.
#[derive(Debug, Clone, Copy, PartialEq, Eq, Structural)]
pub enum SupervisorError {
    /// `start` was called while tasks from a previous start are still
    /// running; `shutdown` must come first.
    AlreadyRunning,
}

/// Owner of the running account watch tasks and the event channel's sender
/// end.
pub struct WatchSupervisor {
    tasks: Vec<Account>,
    sender: flume::Sender<WatchEvent>,
}

impl WatchSupervisor {
    /// The accounts with a running watch task, in spawn order.
    pub closed spec fn running(&self) -> Seq<Account> {
        self.tasks@
    }

    /// A supervisor with no running task.
    pub fn new(sender: flume::Sender<WatchEvent>) -> (s: WatchSupervisor)
        ensures
            s.running() == Seq::<Account>::empty(),
    {
        WatchSupervisor { tasks: Vec::new(), sender }
    }

    /// How many watch tasks are running.
    pub fn running_count(&self) -> (n: usize)
        ensures
            n == self.running().len(),
    {
        self.tasks.len()
    }

    /// The accounts under watch, in spawn order.
    pub fn running_accounts(&self) -> (accounts: &Vec<Account>)
        ensures
            accounts@ == self.running(),
    {
        &self.tasks
    }

    /// A sending end of the event channel, as handed to every spawned task.
    pub fn sender(&self) -> flume::Sender<WatchEvent> {
        clone_sender(&self.sender)
    }

    /// Record one fresh watch task per account, in order. Refused — a
    /// reported error, with nothing changed — while tasks from a previous
    /// start are still running: callers must shut down first.
    pub fn start(&mut self, accounts: Vec<Account>) -> (r: Result<(), SupervisorError>)
        ensures
            old(self).running().len() > 0 ==> r == Result::<(), SupervisorError>::Err(
                SupervisorError::AlreadyRunning,
            ) && final(self).running() == old(self).running(),
            old(self).running().len() == 0 ==> r == Result::<(), SupervisorError>::Ok(())
                && final(self).running() == accounts@,
    {
        if self.tasks.len() > 0 {
            return Err(SupervisorError::AlreadyRunning);
        }
        self.tasks = accounts;
        Ok(())
    }

    /// Cancel every running task and clear the collection; the accounts whose
    /// tasks were cancelled are returned so their sessions can be closed.
    /// After shutdown the running-task count is 0, and a second shutdown is a
    /// no-op.
    pub fn shutdown(&mut self) -> (stopped: Vec<Account>)
        ensures
            final(self).running() == Seq::<Account>::empty(),
            stopped@ == old(self).running(),
    {
        let mut stopped: Vec<Account> = Vec::new();
        core::mem::swap(&mut stopped, &mut self.tasks);
        stopped
    }

    /// Exactly `shutdown` followed by `start` with the fresh account list:
    /// afterwards precisely one task runs per fresh account, whatever was
    /// running before. Returns the accounts whose tasks were cancelled.
    pub fn restart(&mut self, fresh_accounts: Vec<Account>) -> (stopped: Vec<Account>)
        ensures
            final(self).running() == fresh_accounts@,
            stopped@ == old(self).running(),
    {
        let stopped = self.shutdown();
        let started = self.start(fresh_accounts);
        proof {
            // Nothing runs after a shutdown, so the start cannot be refused.
            assert(started is Ok);
        }
        stopped
    }
}

} // verus!
