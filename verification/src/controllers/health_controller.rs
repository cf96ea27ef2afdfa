//! The health endpoint.

use vstd::prelude::*;
use crate::model::responses::health_response::HealthResponse;

verus! {

/// Body of `GET /api/v1/health` for a service of the given package version.
pub fn get_health(pkg_version: &str) -> (r: HealthResponse)
    ensures
        r.status@ == "Ok"@,
        r.version@ == "Cargo Version: "@ + pkg_version@,
{
    HealthResponse::current(pkg_version)
}

} // verus!
