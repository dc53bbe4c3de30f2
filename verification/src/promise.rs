//! The handle a subscriber holds while waiting for a task to complete.

use vstd::prelude::*;
use std::sync::mpsc::Receiver;
use crate::channel::recv_task;
use crate::channel::recv_task_timeout;
use crate::channel::RecvFailure;
use crate::task::Task;

verus! {

/// Why a wait ended without a task: the ticket it was bound to is gone and
/// can never resolve, or the allowed time elapsed first.
#[derive(Debug, Clone, Copy, PartialEq, Eq, Structural)]
pub enum WaitError {
    ManagerClosed,
    Timeout { waited_ms: u64 },
}

/// A handle onto one ticket's eventual task. Either the outcome was already
/// known when the subscription was made, or a channel will carry it later.
///
/// A promise is consumed by waiting on it, so a holder can observe at most
/// one resolution; dropping it unused has no effect on the registry or on
/// sibling promises for the same ticket.
pub enum Promise {
    Ready(Task),
    Waiting(Receiver<Task>),
}

impl Promise {
    /// The task this promise already holds, if the outcome was known at
    /// subscription time.
    pub open spec fn resolved(self) -> Option<Task> {
        match self {
            Promise::Ready(task) => Some(task),
            Promise::Waiting(_) => None,
        }
    }

    /// Suspends the caller until the task completes and returns it. An
    /// already-resolved promise returns its task at once; otherwise the
    /// wait ends only with a delivered task, or with `ManagerClosed` once
    /// the ticket is gone and can never resolve.
    pub fn wait(self) -> (r: Result<Task, WaitError>)
        ensures
            self.resolved() matches Some(task) ==> r == Ok::<Task, WaitError>(task),
            r matches Err(e) ==> e == WaitError::ManagerClosed,
    {
        match self {
            Promise::Ready(task) => Ok(task),
            Promise::Waiting(rx) => match recv_task(rx) {
                Some(task) => Ok(task),
                None => Err(WaitError::ManagerClosed),
            },
        }
    }

    /// Like `wait`, but gives up after `ms` milliseconds with a `Timeout`
    /// error carrying the configured duration. An already-resolved promise
    /// returns its task at once, whatever `ms` is.
    pub fn wait_with_timeout(self, ms: u64) -> (r: Result<Task, WaitError>)
        ensures
            self.resolved() matches Some(task) ==> r == Ok::<Task, WaitError>(task),
            r matches Err(e) ==> (e == WaitError::ManagerClosed || e == (WaitError::Timeout {
                waited_ms: ms,
            })),
    {
        match self {
            Promise::Ready(task) => Ok(task),
            Promise::Waiting(rx) => match recv_task_timeout(rx, ms) {
                Ok(task) => Ok(task),
                Err(RecvFailure::TimedOut) => Err(WaitError::Timeout { waited_ms: ms }),
                Err(RecvFailure::Disconnected) => Err(WaitError::ManagerClosed),
            },
        }
    }
}

} // verus!
