//! Body of the health endpoint.

use vstd::prelude::*;

verus! {

/// Health report: a status word and the running version.
#[derive(Clone, Debug)]
pub struct HealthResponse {
    pub status: String,
    pub version: String,
}

impl HealthResponse {
    /// The report of a running service of the given package version:
    /// status `Ok`, version `Cargo Version: <version>`.
    pub fn current(pkg_version: &str) -> (r: HealthResponse)
        ensures
            r.status@ == "Ok"@,
            r.version@ == "Cargo Version: "@ + pkg_version@,
    {
        let mut version = String::from_str("Cargo Version: ");
        version.append(pkg_version);
        HealthResponse { status: String::from_str("Ok"), version }
    }
}

} // verus!
