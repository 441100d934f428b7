use knowledge_vault::ports::messaging::{backoff_delay, backoff_delay_secs, should_retry, WorkerError, MAX_ATTEMPTS};
use std::time::Duration;

#[test]
fn transient_error_retries_below_max_attempts() {
    let err = WorkerError::Transient("timeout".into());
    assert!(should_retry(1, &err));
    assert!(should_retry(2, &err));
    assert!(should_retry(3, &err));
    assert!(should_retry(4, &err));
}

#[test]
fn transient_error_does_not_retry_at_max_attempts() {
    let err = WorkerError::Transient("timeout".into());
    assert!(!should_retry(MAX_ATTEMPTS, &err));
}

#[test]
fn permanent_error_is_never_retried() {
    let err = WorkerError::Permanent("schema violation".into());
    assert!(!should_retry(1, &err));
    assert!(!should_retry(MAX_ATTEMPTS - 1, &err));
}

#[test]
fn backoff_delay_sequence_is_exponential() {
    assert_eq!(backoff_delay(1), Duration::from_secs(1));
    assert_eq!(backoff_delay(2), Duration::from_secs(2));
    assert_eq!(backoff_delay(3), Duration::from_secs(4));
    assert_eq!(backoff_delay(4), Duration::from_secs(8));
}

#[test]
fn backoff_delay_is_capped_at_30s() {
    assert_eq!(backoff_delay(6), Duration::from_secs(30));
    assert_eq!(backoff_delay(100), Duration::from_secs(30));
}

#[test]
fn backoff_reaches_sixteen_then_the_cap() {
    assert_eq!(backoff_delay_secs(5), 16);
    assert_eq!(backoff_delay_secs(6), 30);
    assert_eq!(backoff_delay_secs(0), 1);
    assert_eq!(backoff_delay_secs(u32::MAX), 30);
}

#[test]
fn worker_errors_describe_themselves() {
    assert_eq!(WorkerError::Transient("x".into()).to_string(), "transient: x");
}
