use vstd::prelude::*;
use crate::models::meta::HealthResponse;

verus! {

/// `GET /health`: the service is up.
pub fn health() -> (r: HealthResponse)
    ensures
        r.status@ == "ok"@,
{
    HealthResponse { status: "ok" }
}

} // verus!
