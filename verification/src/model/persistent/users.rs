//! Account rows with a publication status, and profile changes.

use vstd::prelude::*;
use crate::validation::{
    check_optional_phone, errors_view, finish, opt_view, outcome, phone_error, phone_is_valid, FieldError,
    FieldErrorView, ValidationErrors,
};

verus! {

/// Publication state of an account: a draft, or published at an instant
/// (microseconds since the epoch).
#[derive(Clone, Copy, PartialEq, Eq, Structural, Debug)]
pub enum Status {
    Draft,
    Published { at: i64 },
}

impl Status {
    /// The state recorded by an optional publication time.
    pub fn from_published_at(at: Option<i64>) -> (s: Status)
        ensures
            s == match at {
                None => Status::Draft,
                Some(t) => Status::Published { at: t },
            },
    {
        match at {
            None => Status::Draft,
            Some(t) => Status::Published { at: t },
        }
    }
}

/// A stored account; times are microseconds since the epoch.
#[derive(Clone, Debug)]
pub struct User {
    pub id: String,
    pub email: String,
    pub password: String,
    pub first_name: Option<String>,
    pub last_name: Option<String>,
    pub phone_number: Option<String>,
    pub role: String,
    pub created_by: String,
    pub created_time_dt: i64,
    pub updated_by: String,
    pub updated_time_dt: i64,
    pub pub_status: Status,
}

/// Token claims: subject and expiry.
#[derive(Clone, Debug)]
pub struct Claims {
    pub sub: String,
    pub exp: usize,
}

/// Profile changes; only a given phone number is checked.
#[derive(Clone, Debug)]
pub struct UpdateUser {
    pub first_name: Option<String>,
    pub last_name: Option<String>,
    pub role: Option<String>,
    pub phone_number: Option<String>,
}

/// Failed rules of a profile change: a given phone number must be valid.
pub open spec fn update_user_errors(u: UpdateUser) -> Seq<FieldErrorView> {
    match opt_view(u.phone_number) {
        Some(s) => if phone_is_valid(s) {
            Seq::empty()
        } else {
            seq![phone_error("phone_number"@, s, "phone_number not valid"@)]
        },
        None => Seq::empty(),
    }
}

impl UpdateUser {
    /// Validates the change.
    pub fn validate(&self) -> (r: Result<(), ValidationErrors>)
        ensures
            outcome(update_user_errors(*self), r),
    {
        let mut errs: Vec<FieldError> = Vec::new();
        check_optional_phone(&mut errs, "phone_number", &self.phone_number, "phone_number not valid");
        assert(errors_view(errs@) =~= update_user_errors(*self));
        finish(errs)
    }
}

} // verus!
