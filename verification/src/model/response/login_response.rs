//! Body returned by a successful login.

use vstd::prelude::*;

verus! {

/// Login result with the issued token.
#[derive(Clone, Debug)]
pub struct LoginResponse {
    pub data: String,
    pub status: i64,
    pub request_id: String,
    pub auth_token: String,
}

} // verus!
