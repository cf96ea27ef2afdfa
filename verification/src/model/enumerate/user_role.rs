//! Role of a user account.

use vstd::prelude::*;

verus! {

/// Role of an account; self-registered accounts are plain users.
#[derive(Clone, Copy, PartialEq, Eq, Structural, Debug)]
pub enum UserRole {
    User,
    Admin,
}

} // verus!
