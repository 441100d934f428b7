//! How the outside HTTP services' failures are classified.
use vstd::prelude::*;
use crate::ports::external::ExternalError;
use crate::text::owned;

verus! {

/// A 2xx status.
pub open spec fn is_success(code: u16) -> bool {
    200 <= code <= 299
}

/// A failed request is retried later unless the service refused it for good: a 4xx status
/// other than 429 (too many requests) is permanent, any other failure status is transient.
pub open spec fn failure_is_permanent(code: u16) -> bool {
    400 <= code <= 499 && code != 429
}

/// `prefix`, then the status, `: ` and the body.
pub open spec fn status_message(prefix: Seq<char>, status_text: Seq<char>, body: Seq<char>) -> Seq<char> {
    prefix + status_text + ": "@ + body
}

/// The error for a failure status of an API: `status_text` is the status as displayed (code
/// and reason) and `body` the response body.
pub fn status_failure(prefix: &str, code: u16, status_text: &str, body: &str) -> (e: ExternalError)
    ensures
        failure_is_permanent(code) ==> (e matches ExternalError::Permanent(m) && m@ == status_message(
            prefix@,
            status_text@,
            body@,
        )),
        !failure_is_permanent(code) ==> (e matches ExternalError::Transient(m) && m@ == status_message(
            prefix@,
            status_text@,
            body@,
        )),
{
    let mut msg = owned(prefix);
    msg.append(status_text);
    msg.append(": ");
    msg.append(body);
    if 400 <= code && code <= 499 && code != 429 {
        ExternalError::Permanent(msg)
    } else {
        ExternalError::Transient(msg)
    }
}

/// The error for a request that got no response: a timeout or another request error, both
/// transient; `service` names the API and `detail` is the client's error text.
pub fn send_failure(service: &str, timed_out: bool, detail: &str) -> (e: ExternalError)
    ensures
        e matches ExternalError::Transient(m) && m@ == service@ + (if timed_out {
            " timeout: "@
        } else {
            " request error: "@
        }) + detail@,
{
    let mut msg = owned(service);
    if timed_out {
        msg.append(" timeout: ");
    } else {
        msg.append(" request error: ");
    }
    msg.append(detail);
    ExternalError::Transient(msg)
}

/// A transient error whose text is `prefix` followed by `detail`.
pub fn transient_with(prefix: &str, detail: &str) -> (e: ExternalError)
    ensures
        e matches ExternalError::Transient(m) && m@ == prefix@ + detail@,
{
    let mut msg = owned(prefix);
    msg.append(detail);
    ExternalError::Transient(msg)
}

/// A permanent error whose text is `prefix` followed by `detail`.
pub fn permanent_with(prefix: &str, detail: &str) -> (e: ExternalError)
    ensures
        e matches ExternalError::Permanent(m) && m@ == prefix@ + detail@,
{
    let mut msg = owned(prefix);
    msg.append(detail);
    ExternalError::Permanent(msg)
}

} // verus!
