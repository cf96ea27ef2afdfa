//! Status of a user account.

use vstd::prelude::*;

verus! {

/// Status of an account; accounts start inactive.
#[derive(Clone, Copy, PartialEq, Eq, Structural, Debug)]
pub enum UserStatus {
    Active,
    Inactive,
}

} // verus!
