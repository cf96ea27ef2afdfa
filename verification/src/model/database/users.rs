//! Account rows with times as integers, and the requests that change them.

use vstd::prelude::*;
use crate::validation::{
    check_optional_phone, check_required_email, check_required_length, errors_view, finish, opt_view, outcome,
    phone_error, phone_is_valid, required_email_errors, required_length_errors, FieldError, FieldErrorView,
    ValidationErrors,
};

verus! {

/// A stored account; times are seconds since the epoch.
#[derive(Clone, Debug)]
pub struct User {
    pub id: String,
    pub email: String,
    pub password: String,
    pub first_name: Option<String>,
    pub last_name: Option<String>,
    pub phone_number: Option<String>,
    pub role: String,
    pub created_by: String,
    pub created_time_dt: i64,
    pub updated_by: String,
    pub updated_time_dt: i64,
}

/// Token claims: subject and expiry.
#[derive(Clone, Debug)]
pub struct Claims {
    pub sub: String,
    pub exp: usize,
}

/// E-mail and password of a new account, both required.
#[derive(Clone, Debug)]
pub struct Register {
    pub email: Option<String>,
    pub password: Option<String>,
}

/// Failed rules of a registration.
pub open spec fn register_errors(r: Register) -> Seq<FieldErrorView> {
    required_email_errors("email"@, opt_view(r.email), "email is not valid"@)
        + required_length_errors("password"@, opt_view(r.password), Some(8), None, None,
            "password must be at least 8 characters"@)
}

impl Register {
    /// Validates the registration.
    pub fn validate(&self) -> (r: Result<(), ValidationErrors>)
        ensures
            outcome(register_errors(*self), r),
    {
        let mut errs: Vec<FieldError> = Vec::new();
        check_required_email(&mut errs, "email", &self.email, "email is not valid");
        check_required_length(&mut errs, "password", &self.password, Some(8), None, None,
            "password must be at least 8 characters");
        assert(errors_view(errs@) =~= register_errors(*self));
        finish(errs)
    }
}

/// Profile changes; only a given phone number is checked.
#[derive(Clone, Debug)]
pub struct UpdateUser {
    pub first_name: Option<String>,
    pub last_name: Option<String>,
    pub role: Option<String>,
    pub phone_number: Option<String>,
}

/// Failed rules of a profile change: a given phone number must be valid.
pub open spec fn update_user_errors(u: UpdateUser) -> Seq<FieldErrorView> {
    match opt_view(u.phone_number) {
        Some(s) => if phone_is_valid(s) {
            Seq::empty()
        } else {
            seq![phone_error("phone_number"@, s, "phone_number not valid"@)]
        },
        None => Seq::empty(),
    }
}

impl UpdateUser {
    /// Validates the change.
    pub fn validate(&self) -> (r: Result<(), ValidationErrors>)
        ensures
            outcome(update_user_errors(*self), r),
    {
        let mut errs: Vec<FieldError> = Vec::new();
        check_optional_phone(&mut errs, "phone_number", &self.phone_number, "phone_number not valid");
        assert(errors_view(errs@) =~= update_user_errors(*self));
        finish(errs)
    }
}

} // verus!
