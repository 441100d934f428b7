//! Login attempts: the queries over the lockout window and what their rows give.
use vstd::prelude::*;
use crate::adapters::surreal::graph_write::{is_hyphenated_uuid, new_uuid};
use crate::text::{decimal, decimal_string, owned};

verus! {

/// A login attempt to record; the store stamps its time.
#[derive(Debug)]
pub struct LoginAttemptRecord {
    pub email: String,
    pub succeeded: bool,
}

/// A login attempt to record, with the fresh id it is stored under.
pub fn new_attempt(email: &str, succeeded: bool) -> (r: (String, LoginAttemptRecord))
    ensures
        is_hyphenated_uuid(r.0@),
        r.1.email@ == email@,
        r.1.succeeded == succeeded,
{
    (new_uuid(), LoginAttemptRecord { email: owned(email), succeeded })
}

/// The condition that selects an email's failed attempts within the last `window` seconds.
pub open spec fn recent_failures_condition(window: u64) -> Seq<char> {
    "FROM login_attempts WHERE email = $email AND succeeded = false AND attempted_at > time::now() - "@
        + decimal(window as nat) + "s"@
}

/// The query that counts an email's recent failures.
pub open spec fn count_failures_query(window: u64) -> Seq<char> {
    "SELECT count() "@ + recent_failures_condition(window) + " GROUP ALL"@
}

/// The query that finds the time of an email's oldest recent failure.
pub open spec fn oldest_failure_query(window: u64) -> Seq<char> {
    "SELECT attempted_at "@ + recent_failures_condition(window) + " ORDER BY attempted_at ASC LIMIT 1"@
}

fn condition_text(window: u64) -> (s: String)
    ensures
        s@ == recent_failures_condition(window),
{
    let mut s = owned(
        "FROM login_attempts WHERE email = $email AND succeeded = false AND attempted_at > time::now() - ",
    );
    let d = decimal_string(window);
    s.append(d.as_str());
    s.append("s");
    s
}

/// The query that counts an email's failures within the last `window` seconds.
pub fn count_recent_failures_query(window: u64) -> (q: String)
    ensures
        q@ == count_failures_query(window),
{
    let mut q = owned("SELECT count() ");
    let c = condition_text(window);
    q.append(c.as_str());
    q.append(" GROUP ALL");
    q
}

/// The query that finds the time of an email's oldest failure within the last `window`
/// seconds.
pub fn oldest_recent_failure_query(window: u64) -> (q: String)
    ensures
        q@ == oldest_failure_query(window),
{
    let mut q = owned("SELECT attempted_at ");
    let c = condition_text(window);
    q.append(c.as_str());
    q.append(" ORDER BY attempted_at ASC LIMIT 1");
    q
}

/// What `chrono::DateTime::parse_from_rfc3339(s)` then `.timestamp()` give: the seconds since
/// the epoch of an RFC 3339 time, or nothing when `s` is not one.
pub uninterp spec fn rfc3339_seconds(s: Seq<char>) -> Option<i64>;

/// `chrono::DateTime::parse_from_rfc3339` then `timestamp`: the outcome is named
/// `rfc3339_seconds(s)`; the RFC 3339 grammar is not stated.
#[verifier::external_body]
fn parse_rfc3339_seconds(s: &str) -> (r: Option<i64>)
    ensures
        r == rfc3339_seconds(s@),
{
    match chrono::DateTime::parse_from_rfc3339(s) {
        Ok(dt) => Some(dt.timestamp()),
        Err(_) => None,
    }
}

/// The time of the oldest recent failure, from the `attempted_at` text of the first row (none
/// when there is no row, no text, or a text that is not an RFC 3339 time).
pub fn oldest_failure_ts(attempted_at: Option<String>) -> (r: Option<i64>)
    ensures
        r == match attempted_at {
            Some(t) => rfc3339_seconds(t@),
            None => None,
        },
{
    match attempted_at {
        Some(t) => parse_rfc3339_seconds(t.as_str()),
        None => None,
    }
}

} // verus!
