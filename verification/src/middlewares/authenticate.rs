//! Presence check of the authorization header.

use vstd::prelude::*;

verus! {

/// Proof that a request carried an `Authorization` header.
#[derive(Clone, Copy, Debug)]
pub struct Authentication;

/// Rejection of a request without credentials (401).
#[derive(Clone, Debug)]
pub struct Unauthorized {
    pub message: String,
}

impl Authentication {
    /// Extracts the authentication of a request: present exactly when the
    /// request has an `Authorization` header.
    pub fn from_request(has_authorization: bool) -> (r: Result<Authentication, Unauthorized>)
        ensures
            r is Ok <==> has_authorization,
            r matches Err(u) ==> u.message@ == "Authorization key is required"@,
    {
        if has_authorization {
            Ok(Authentication)
        } else {
            Err(Unauthorized { message: String::from_str("Authorization key is required") })
        }
    }
}

/// A request is authorized when it has an `authorized` header.
pub fn is_authorized(has_authorized_header: bool) -> (r: bool)
    ensures
        r == has_authorized_header,
{
    has_authorized_header
}

} // verus!
