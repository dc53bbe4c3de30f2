//! Trusted boundary around `std::sync::mpsc`: the channels that carry a
//! completed task from the registry to its waiters.
//!
//! Nothing is claimed here about delivery: what a receiver yields depends on
//! shared channel state, so each caller states only what holds of every
//! outcome.

use vstd::prelude::*;
use std::sync::mpsc::Receiver;
use std::sync::mpsc::RecvTimeoutError;
use std::sync::mpsc::Sender;
use crate::task::Task;

verus! {

#[verifier::external_type_specification]
#[verifier::external_body]
#[verifier::reject_recursive_types(T)]
pub struct ExSender<T>(Sender<T>);

#[verifier::external_type_specification]
#[verifier::external_body]
#[verifier::reject_recursive_types(T)]
pub struct ExReceiver<T>(Receiver<T>);

/// Why a receive attempt yielded no value: the wait ran out, or every sender
/// was dropped and no value will ever come.
#[derive(Debug, Clone, Copy, PartialEq, Eq, Structural)]
pub enum RecvFailure {
    TimedOut,
    Disconnected,
}

/// Relies on `std::sync::mpsc::channel`: creates a channel whose receiver
/// yields the values sent on the paired sender, in order.
#[verifier::external_body]
pub(crate) fn task_channel() -> (Sender<Task>, Receiver<Task>) {
    std::sync::mpsc::channel()
}

/// Relies on `std::sync::mpsc::Sender::send`: hands the value to the paired
/// receiver; a send to a dropped receiver fails, which is deliberately
/// ignored — notification is fire-and-forget.
#[verifier::external_body]
pub(crate) fn send_task(tx: &Sender<Task>, task: Task) {
    let _ = tx.send(task);
}

/// Relies on `std::sync::mpsc::Receiver::recv`: blocks until a value arrives
/// and yields it, or yields nothing once every sender has been dropped.
#[verifier::external_body]
pub(crate) fn recv_task(rx: Receiver<Task>) -> (r: Option<Task>) {
    rx.recv().ok()
}

/// Relies on `std::sync::mpsc::Receiver::recv_timeout`: like `recv`, but
/// gives up once the given number of milliseconds has elapsed.
#[verifier::external_body]
pub(crate) fn recv_task_timeout(rx: Receiver<Task>, ms: u64) -> (r: Result<Task, RecvFailure>) {
    match rx.recv_timeout(core::time::Duration::from_millis(ms)) {
        Ok(task) => Ok(task),
        Err(RecvTimeoutError::Timeout) => Err(RecvFailure::TimedOut),
        Err(RecvTimeoutError::Disconnected) => Err(RecvFailure::Disconnected),
    }
}

} // verus!
