//! Registration request body.

use vstd::prelude::*;
use crate::validation::{
    check_required_email, check_required_length, email_is_valid, errors_view, finish, opt_view, outcome,
    required_email_errors, required_length_errors, FieldError, FieldErrorView, ValidationErrors,
};

verus! {

/// A registration: e-mail, password and the one-time code sent to the
/// address (`otpCode` on the wire).
#[derive(Clone, Debug)]
pub struct Register {
    pub email: Option<String>,
    pub password: Option<String>,
    pub otp_code: Option<String>,
}

/// Failed rules of a registration: all three fields are required, the
/// e-mail must be an address, the password at least 8 characters and the
/// code exactly 6.
pub open spec fn register_errors(r: Register) -> Seq<FieldErrorView> {
    required_email_errors("email"@, opt_view(r.email), "email is not valid"@)
        + required_length_errors("password"@, opt_view(r.password), Some(8), None, None,
            "password must be at least 8 characters"@)
        + required_length_errors("otpCode"@, opt_view(r.otp_code), Some(6), Some(6), None,
            "otp code invalid"@)
}

/// Whether some failure in `errs` is on the field `f`.
pub open spec fn fails_on(errs: Seq<FieldErrorView>, f: Seq<char>) -> bool {
    exists|i: int| 0 <= i < errs.len() && #[trigger] errs[i].field == f
}

proof fn lemma_one_field(errs: Seq<FieldErrorView>, f: Seq<char>, ok: bool)
    requires
        errs.len() <= 1,
        errs.len() == 0 <==> ok,
        errs.len() == 1 ==> errs[0].field == f,
    ensures
        fails_on(errs, f) <==> !ok,
{
    if errs.len() == 1 {
        assert(errs[0].field == f);
    }
}

proof fn lemma_fails_on_concat(a: Seq<FieldErrorView>, b: Seq<FieldErrorView>, f: Seq<char>)
    ensures
        fails_on(a + b, f) <==> fails_on(a, f) || fails_on(b, f),
{
    if fails_on(a + b, f) {
        let i = choose|i: int| 0 <= i < (a + b).len() && #[trigger] (a + b)[i].field == f;
        if i < a.len() {
            assert(a[i].field == f);
        } else {
            assert(b[i - a.len()].field == f);
        }
    }
    if fails_on(a, f) {
        let i = choose|i: int| 0 <= i < a.len() && #[trigger] a[i].field == f;
        assert((a + b)[i].field == f);
    }
    if fails_on(b, f) {
        let i = choose|i: int| 0 <= i < b.len() && #[trigger] b[i].field == f;
        assert((a + b)[a.len() + i].field == f);
    }
}

/// The registration rules: a registration passes exactly when it has an
/// e-mail address, a password of at least 8 characters (any longer length
/// is fine) and a code of exactly 6 characters; and a field is reported
/// exactly when its own rule fails.
pub proof fn lemma_registration_rules(r: Register)
    ensures
        ({
            let email_ok = opt_view(r.email) matches Some(e) && email_is_valid(e);
            let password_ok = opt_view(r.password) matches Some(p) && p.len() >= 8;
            let code_ok = opt_view(r.otp_code) matches Some(c) && c.len() == 6;
            &&& register_errors(r).len() == 0 <==> email_ok && password_ok && code_ok
            &&& fails_on(register_errors(r), "email"@) <==> !email_ok
            &&& fails_on(register_errors(r), "password"@) <==> !password_ok
            &&& fails_on(register_errors(r), "otpCode"@) <==> !code_ok
        }),
{
    reveal_strlit("email");
    reveal_strlit("password");
    reveal_strlit("otpCode");
    let a = required_email_errors("email"@, opt_view(r.email), "email is not valid"@);
    let b = required_length_errors("password"@, opt_view(r.password), Some(8), None, None,
        "password must be at least 8 characters"@);
    let c = required_length_errors("otpCode"@, opt_view(r.otp_code), Some(6), Some(6), None, "otp code invalid"@);
    let email_ok = opt_view(r.email) matches Some(e) && email_is_valid(e);
    let password_ok = opt_view(r.password) matches Some(p) && p.len() >= 8;
    let code_ok = opt_view(r.otp_code) matches Some(x) && x.len() == 6;
    assert(register_errors(r) == a + b + c);
    lemma_fails_on_concat(a + b, c, "email"@);
    lemma_fails_on_concat(a, b, "email"@);
    lemma_fails_on_concat(a + b, c, "password"@);
    lemma_fails_on_concat(a, b, "password"@);
    lemma_fails_on_concat(a + b, c, "otpCode"@);
    lemma_fails_on_concat(a, b, "otpCode"@);
    assert("email"@ != "password"@ && "email"@ != "otpCode"@ && "password"@ != "otpCode"@) by {
        assert("email"@.len() == 5 && "password"@.len() == 8 && "otpCode"@.len() == 7);
    }
    lemma_one_field(a, "email"@, email_ok);
    lemma_one_field(b, "password"@, password_ok);
    lemma_one_field(c, "otpCode"@, code_ok);
    if a.len() == 1 {
        assert(!fails_on(a, "password"@) && !fails_on(a, "otpCode"@));
    }
    if b.len() == 1 {
        assert(!fails_on(b, "email"@) && !fails_on(b, "otpCode"@));
    }
    if c.len() == 1 {
        assert(!fails_on(c, "email"@) && !fails_on(c, "password"@));
    }
    if a.len() == 0 {
        assert(!fails_on(a, "password"@) && !fails_on(a, "otpCode"@));
    }
    if b.len() == 0 {
        assert(!fails_on(b, "email"@) && !fails_on(b, "otpCode"@));
    }
    if c.len() == 0 {
        assert(!fails_on(c, "email"@) && !fails_on(c, "password"@));
    }
}

impl Register {
    /// Validates the registration.
    pub fn validate(&self) -> (r: Result<(), ValidationErrors>)
        ensures
            outcome(register_errors(*self), r),
    {
        let mut errs: Vec<FieldError> = Vec::new();
        check_required_email(&mut errs, "email", &self.email, "email is not valid");
        check_required_length(&mut errs, "password", &self.password, Some(8), None, None,
            "password must be at least 8 characters");
        check_required_length(&mut errs, "otpCode", &self.otp_code, Some(6), Some(6), None,
            "otp code invalid");
        assert(errors_view(errs@) =~= register_errors(*self));
        finish(errs)
    }
}

} // verus!
