use user_service::model::database::users::{Register as DbRegister, UpdateUser};
use user_service::model::request::login_request::Login;
use user_service::model::request::page_request::{default_page, default_page_size, PageRequest};
use user_service::model::request::user::get_all_users::Register as Credentials;
use user_service::model::request::user::register_request::Register;
use user_service::model::requests::language_request::default_language;
use user_service::validation::{FieldError, ParamValue, ValidationErrors};

fn codes(errs: &[FieldError]) -> Vec<(String, String)> {
    errs.iter().map(|e| (e.field.clone(), e.code.clone())).collect()
}

fn valid_register() -> Register {
    Register {
        email: Some("jane@example.org".to_string()),
        password: Some("correct horse".to_string()),
        otp_code: Some("123456".to_string()),
    }
}

#[test]
fn register_valid_passes() {
    assert!(valid_register().validate().is_ok());
}

#[test]
fn register_missing_fields_are_required() {
    let r = Register { email: None, password: None, otp_code: None };
    let e = r.validate().unwrap_err();
    assert_eq!(
        codes(&e.errors),
        vec![
            ("email".to_string(), "required".to_string()),
            ("password".to_string(), "required".to_string()),
            ("otpCode".to_string(), "required".to_string()),
        ]
    );
    assert!(e.errors[0].message.is_none());
    assert!(matches!(e.errors[0].params[0].1, ParamValue::Null));
}

#[test]
fn register_bad_email() {
    let mut r = valid_register();
    r.email = Some("not-an-address".to_string());
    let e = r.validate().unwrap_err();
    assert_eq!(codes(&e.errors), vec![("email".to_string(), "email".to_string())]);
    assert_eq!(e.errors[0].message.as_deref(), Some("email is not valid"));
    match &e.errors[0].params[0] {
        (k, ParamValue::Str(v)) => {
            assert_eq!(k, "value");
            assert_eq!(v, "not-an-address");
        }
        _ => panic!("unexpected parameter"),
    }
}

#[test]
fn register_short_password_and_bad_otp() {
    let mut r = valid_register();
    r.password = Some("short".to_string());
    r.otp_code = Some("12345".to_string());
    let e = r.validate().unwrap_err();
    assert_eq!(
        codes(&e.errors),
        vec![("password".to_string(), "length".to_string()), ("otpCode".to_string(), "length".to_string())]
    );
    assert_eq!(e.errors[0].message.as_deref(), Some("password must be at least 8 characters"));
    let names: Vec<&str> = e.errors[1].params.iter().map(|p| p.0.as_str()).collect();
    assert_eq!(names, vec!["min", "max", "value"]);
    assert_eq!(e.errors[1].message.as_deref(), Some("otp code invalid"));
}

#[test]
fn password_length_counts_characters() {
    let mut r = valid_register();
    r.password = Some("ééééééé".to_string()); // 7 characters, 14 bytes
    assert!(r.validate().is_err());
    r.password = Some("éééééééé".to_string());
    assert!(r.validate().is_ok());
}

#[test]
fn credentials_and_login_rules() {
    let c = Credentials { email: Some("a@b.co".to_string()), password: None };
    assert_eq!(codes(&c.validate().unwrap_err().errors), vec![("password".to_string(), "required".to_string())]);
    let d = DbRegister { email: Some("a@b.co".to_string()), password: Some("12345678".to_string()) };
    assert!(d.validate().is_ok());
    let l = Login { email: "bad".to_string(), password: "1234567".to_string(), remember_me: false };
    assert_eq!(
        codes(&l.validate().unwrap_err().errors),
        vec![("email".to_string(), "email".to_string()), ("password".to_string(), "length".to_string())]
    );
}

#[test]
fn page_request_rules_and_defaults() {
    assert_eq!(default_page(), 0);
    assert_eq!(default_page_size(), 10);
    assert!(PageRequest { page: 0, pagesize: 1 }.validate().is_ok());
    let e = PageRequest { page: -1, pagesize: 0 }.validate().unwrap_err();
    assert_eq!(
        codes(&e.errors),
        vec![("page".to_string(), "range".to_string()), ("pagesize".to_string(), "range".to_string())]
    );
    match &e.errors[1].params[0] {
        (k, ParamValue::WholeFloat(1)) => assert_eq!(k, "min"),
        _ => panic!("unexpected parameter"),
    }
}

#[test]
fn phone_rule() {
    let ok = UpdateUser { first_name: None, last_name: None, role: None, phone_number: Some("+14152370800".to_string()) };
    assert!(ok.validate().is_ok());
    let none = UpdateUser { first_name: None, last_name: None, role: None, phone_number: None };
    assert!(none.validate().is_ok());
    let bad = UpdateUser { first_name: None, last_name: None, role: None, phone_number: Some("TEXT".to_string()) };
    let e = bad.validate().unwrap_err();
    assert_eq!(codes(&e.errors), vec![("phone_number".to_string(), "phone".to_string())]);
    assert_eq!(e.errors[0].message.as_deref(), Some("phone_number not valid"));
    let wide = UpdateUser { first_name: None, last_name: None, role: None, phone_number: Some("+１4152370800".to_string()) };
    // The phone number parser decides on non-ASCII text too (it refuses this one).
    let e = wide.validate().unwrap_err();
    assert_eq!(codes(&e.errors), vec![("phone_number".to_string(), "phone".to_string())]);
}

#[test]
fn language_default() {
    assert_eq!(default_language(), "vn");
}

fn failure(field: &str, code: &str) -> FieldError {
    FieldError { field: field.to_string(), code: code.to_string(), message: None, params: vec![] }
}

#[test]
fn failures_grouped_by_field() {
    let e = ValidationErrors {
        errors: vec![failure("email", "required"), failure("password", "length"), failure("email", "email")],
    };
    let groups = e.field_groups();
    let shape: Vec<(&str, Vec<usize>)> = groups.iter().map(|g| (g.field.as_str(), g.errors.clone())).collect();
    assert_eq!(shape, vec![("email", vec![0, 2]), ("password", vec![1])]);
    let none = ValidationErrors { errors: vec![] };
    assert!(none.field_groups().is_empty());
}
