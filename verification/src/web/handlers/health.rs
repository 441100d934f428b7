//! The health check.
use vstd::prelude::*;

verus! {

/// The body of a health check.
#[derive(Debug)]
pub struct HealthResponse {
    pub status: &'static str,
    pub version: &'static str,
    pub db: Option<&'static str>,
}

/// The reply to a health check, given whether the database answered: 200 and `ok` when it
/// did, 503 and `degraded` when it did not.
pub fn get_health(db_ok: bool, version: &'static str) -> (r: (u16, HealthResponse))
    ensures
        r.1.version == version,
        db_ok ==> r.0 == 200 && r.1.status@ == "ok"@ && (r.1.db matches Some(d) && d@ == "connected"@),
        !db_ok ==> r.0 == 503 && r.1.status@ == "degraded"@ && (r.1.db matches Some(d) && d@
            == "disconnected"@),
{
    if db_ok {
        (200, HealthResponse { status: "ok", version, db: Some("connected") })
    } else {
        (503, HealthResponse { status: "degraded", version, db: Some("disconnected") })
    }
}

} // verus!
