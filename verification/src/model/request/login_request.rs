//! Login request body.

use vstd::prelude::*;
use crate::validation::{
    check_required_email, check_required_length, errors_view, finish, outcome, required_email_errors,
    required_length_errors, FieldError, FieldErrorView, ValidationErrors,
};

verus! {

/// Credentials of a login; `remember_me` defaults to `false`.
#[derive(Clone, Debug)]
pub struct Login {
    pub email: String,
    pub password: String,
    pub remember_me: bool,
}

/// Failed rules of a login: the e-mail must be an address and the password
/// at least 8 characters long.
pub open spec fn login_errors(l: Login) -> Seq<FieldErrorView> {
    required_email_errors("email"@, Some(l.email@), "email is not valid"@)
        + required_length_errors("password"@, Some(l.password@), Some(8), None, None,
            "password must be at least 8 characters"@)
}

impl Login {
    /// Validates the login body.
    pub fn validate(&self) -> (r: Result<(), ValidationErrors>)
        ensures
            outcome(login_errors(*self), r),
    {
        let mut errs: Vec<FieldError> = Vec::new();
        let email = Some(self.email.clone());
        let password = Some(self.password.clone());
        check_required_email(&mut errs, "email", &email, "email is not valid");
        check_required_length(&mut errs, "password", &password, Some(8), None, None,
            "password must be at least 8 characters");
        assert(errors_view(errs@) =~= login_errors(*self));
        finish(errs)
    }
}

} // verus!
