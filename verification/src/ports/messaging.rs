//! Retry policy of the discovery worker: which failures are retried, and after how long.
use vstd::prelude::*;
use vstd::arithmetic::power2::{pow2, lemma_pow2_unfold, lemma_pow2_strictly_increases, lemma2_to64};
use std::time::Duration;
use crate::text::owned;

verus! {

/// Maximum number of delivery attempts before a message is permanently terminated.
pub const MAX_ATTEMPTS: u32 = 5;

/// Classifies a worker processing error as transient (retryable) or permanent (fail immediately).
#[derive(Debug, Clone, PartialEq)]
pub enum WorkerError {
    Transient(String),
    Permanent(String),
}

impl WorkerError {
    /// The text that describes the error.
    pub open spec fn message(&self) -> Seq<char> {
        match self {
            WorkerError::Transient(msg) => "transient: "@ + msg@,
            WorkerError::Permanent(msg) => "permanent: "@ + msg@,
        }
    }

    /// The text that describes the error.
    pub fn to_string(&self) -> (s: String)
        ensures
            s@ == self.message(),
    {
        match self {
            WorkerError::Transient(msg) => {
                let mut s = owned("transient: ");
                s.append(msg.as_str());
                s
            },
            WorkerError::Permanent(msg) => {
                let mut s = owned("permanent: ");
                s.append(msg.as_str());
                s
            },
        }
    }
}

/// The value of `std::time::Duration::from_secs(secs)`.
pub uninterp spec fn seconds(secs: u64) -> Duration;

/// `std::time::Duration::from_secs`: the contract names its result `seconds(secs)`;
/// that two different counts give different durations is not stated.
#[verifier::external_body]
fn duration_from_secs(secs: u64) -> (d: Duration)
    ensures
        d == seconds(secs),
{
    Duration::from_secs(secs)
}

/// The backoff, in seconds, before delivery number `delivered` is retried:
/// doubling from one second (`2^(delivered - 1)`) and capped at thirty.
pub open spec fn backoff_secs(delivered: nat) -> nat {
    let exponent: nat = if delivered == 0 { 0 } else { (delivered - 1) as nat };
    if pow2(exponent) < 30 {
        pow2(exponent)
    } else {
        30
    }
}

/// The exponential backoff in whole seconds for a given delivery count.
pub fn backoff_delay_secs(delivered: u32) -> (secs: u64)
    ensures
        secs == backoff_secs(delivered as nat),
{
    let exponent = delivered.saturating_sub(1);
    let mut secs: u64 = 1;
    let mut k: u32 = 0;
    proof {
        lemma2_to64();
    }
    while k < exponent && secs < 30
        invariant
            k <= exponent,
            secs == pow2(k as nat),
            secs <= 60,
        decreases exponent - k,
    {
        proof {
            lemma_pow2_unfold((k + 1) as nat);
        }
        secs = secs * 2;
        k = k + 1;
    }
    proof {
        if k < exponent {
            lemma_pow2_strictly_increases(k as nat, exponent as nat);
        }
    }
    if secs > 30 {
        30
    } else {
        secs
    }
}

/// Returns the exponential backoff delay for a given delivery count.
pub fn backoff_delay(delivered: u32) -> (d: Duration)
    ensures
        d == seconds(backoff_secs(delivered as nat) as u64),
{
    duration_from_secs(backoff_delay_secs(delivered))
}

/// Returns true if the message should be retried given its delivery count and error.
pub fn should_retry(delivered: u32, error: &WorkerError) -> (r: bool)
    ensures
        r == retried(delivered as nat, error is Transient),
{
    match error {
        WorkerError::Transient(_) => delivered < MAX_ATTEMPTS,
        WorkerError::Permanent(_) => false,
    }
}

/// The backoff never exceeds thirty seconds and never shrinks from one delivery to the next.
pub proof fn law_backoff_is_capped_and_monotone(a: nat, b: nat)
    ensures
        1 <= backoff_secs(a) <= 30,
        a <= b ==> backoff_secs(a) <= backoff_secs(b),
{
    let ea: nat = if a == 0 { 0 } else { (a - 1) as nat };
    let eb: nat = if b == 0 { 0 } else { (b - 1) as nat };
    vstd::arithmetic::power2::lemma_pow2_pos(ea);
    if a <= b && ea < eb {
        lemma_pow2_strictly_increases(ea, eb);
    }
}

/// The first four deliveries wait 1, 2, 4 and 8 seconds, and from the sixth on the wait is
/// thirty seconds.
pub proof fn law_backoff_sequence(d: nat)
    ensures
        backoff_secs(1) == 1,
        backoff_secs(2) == 2,
        backoff_secs(3) == 4,
        backoff_secs(4) == 8,
        backoff_secs(5) == 16,
        d >= 6 ==> backoff_secs(d) == 30,
{
    lemma2_to64();
    if d > 6 {
        lemma_pow2_strictly_increases(5, (d - 1) as nat);
    }
}

/// Whether delivery number `delivered` of a message that failed with an error of the given
/// kind is retried.
pub open spec fn retried(delivered: nat, transient: bool) -> bool {
    transient && delivered < MAX_ATTEMPTS
}

/// A transiently failing message is retried on deliveries 1 to `MAX_ATTEMPTS - 1` and
/// terminated on delivery `MAX_ATTEMPTS` or any later one; a permanent failure is never retried.
pub proof fn law_retries_stop_at_max_attempts()
    ensures
        forall|d: nat| 1 <= d < MAX_ATTEMPTS ==> #[trigger] retried(d, true),
        forall|d: nat| d >= MAX_ATTEMPTS ==> !#[trigger] retried(d, true),
        forall|d: nat| !#[trigger] retried(d, false),
{
}

} // verus!
