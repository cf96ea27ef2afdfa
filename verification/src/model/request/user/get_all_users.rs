//! E-mail and password pair, as accepted by the user listing endpoint.

use vstd::prelude::*;
use crate::validation::{
    check_required_email, check_required_length, errors_view, finish, opt_view, outcome,
    required_email_errors, required_length_errors, FieldError, FieldErrorView, ValidationErrors,
};

verus! {

/// E-mail and password, both required.
#[derive(Clone, Debug)]
pub struct Register {
    pub email: Option<String>,
    pub password: Option<String>,
}

/// Failed rules: both fields are required, the e-mail must be an address and
/// the password at least 8 characters long.
pub open spec fn credentials_errors(r: Register) -> Seq<FieldErrorView> {
    required_email_errors("email"@, opt_view(r.email), "email is not valid"@)
        + required_length_errors("password"@, opt_view(r.password), Some(8), None, None,
            "password must be at least 8 characters"@)
}

impl Register {
    /// Validates the pair.
    pub fn validate(&self) -> (r: Result<(), ValidationErrors>)
        ensures
            outcome(credentials_errors(*self), r),
    {
        let mut errs: Vec<FieldError> = Vec::new();
        check_required_email(&mut errs, "email", &self.email, "email is not valid");
        check_required_length(&mut errs, "password", &self.password, Some(8), None, None,
            "password must be at least 8 characters");
        assert(errors_view(errs@) =~= credentials_errors(*self));
        finish(errs)
    }
}

} // verus!
