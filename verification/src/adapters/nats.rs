//! How a delivered discovery message is acknowledged once its handler has run.
use vstd::prelude::*;
use std::time::Duration;
use crate::ports::messaging::{
    backoff_delay, backoff_secs, retried, seconds, should_retry, WorkerError, MAX_ATTEMPTS,
};

verus! {

/// The acknowledgement sent back for a delivered message.
#[derive(Debug)]
pub enum AckAction {
    /// Processed: acknowledge.
    Ack,
    /// Never deliver again.
    Terminate,
    /// Deliver again after the delay.
    RetryAfter(Duration),
    /// Deliver again at once (the delivery count could not be read).
    RetryNow,
}

/// The acknowledgement for delivery number `delivered` of a message, given how its handler
/// ended: success is acknowledged, a permanent failure terminates the message, a transient one
/// is retried with the backoff delay until `MAX_ATTEMPTS` deliveries have been made.
pub fn delivery_action(delivered: u32, outcome: &Result<(), WorkerError>) -> (a: AckAction)
    ensures
        match outcome {
            Ok(()) => a is Ack,
            Err(e) => if retried(delivered as nat, e is Transient) {
                a == AckAction::RetryAfter(seconds(backoff_secs(delivered as nat) as u64))
            } else {
                a is Terminate
            },
        },
{
    match outcome {
        Ok(()) => AckAction::Ack,
        Err(e) => {
            if should_retry(delivered, e) {
                AckAction::RetryAfter(backoff_delay(delivered))
            } else {
                AckAction::Terminate
            }
        },
    }
}

/// The acknowledgement for a message whose delivery count cannot be read: redeliver at once.
pub fn unreadable_delivery_action() -> (a: AckAction)
    ensures
        a is RetryNow,
{
    AckAction::RetryNow
}

/// A message that keeps failing transiently is delivered at most `MAX_ATTEMPTS` times: from
/// that delivery on it is terminated, and a permanent failure terminates it at once.
pub proof fn law_deliveries_are_bounded(delivered: u32, transient: bool)
    ensures
        delivered >= MAX_ATTEMPTS ==> !retried(delivered as nat, transient),
        !transient ==> !retried(delivered as nat, transient),
{
}

} // verus!
