use user_service::model::constants::status::Status;
use user_service::text::{i64_to_text, str_eq, to_ascii_lowercase, u64_to_text, eq_ignore_ascii_case};
use user_service::utils::project_profile::{get_profile, Profile};

#[test]
fn status_known_codes_have_reasons() {
    assert_eq!(Status::success().canonical_reason(), Some("Success"));
    assert_eq!(Status::fail().canonical_reason(), Some("Fail"));
    assert_eq!(Status::processing().canonical_reason(), Some("Processing"));
    assert_eq!(Status::unknown().canonical_reason(), Some("Unknown"));
}

#[test]
fn status_other_codes_have_no_reason() {
    let s = Status::from_i16(404).unwrap();
    assert_eq!(s.canonical_reason(), None);
    assert_eq!(s.to_string(), "404 <unknown status code>");
}

#[test]
fn status_display_includes_reason() {
    assert_eq!(Status::success().to_string(), "0 Success");
    assert_eq!(Status::fail().to_string(), "-1 Fail");
    assert_eq!(Status::unknown().to_string(), "900 Unknown");
}

#[test]
fn status_code_round_trip() {
    for c in [i16::MIN, -1, 0, 1, 102, 900, i16::MAX] {
        let s = Status::from_i16(c).unwrap();
        assert_eq!(s.as_i16(), c);
        assert!(s.eq_code(&c));
        assert_eq!(Status::try_from(c).unwrap(), s);
    }
    assert!(!Status::success().eq_code(&1));
}

#[test]
fn decimal_rendering() {
    assert_eq!(u64_to_text(0), "0");
    assert_eq!(u64_to_text(1234567890), "1234567890");
    assert_eq!(u64_to_text(u64::MAX), u64::MAX.to_string());
    assert_eq!(i64_to_text(-42), "-42");
    assert_eq!(i64_to_text(i64::MIN), i64::MIN.to_string());
    assert_eq!(i64_to_text(i64::MAX), i64::MAX.to_string());
}

#[test]
fn ascii_case_helpers() {
    assert_eq!(to_ascii_lowercase("DeVeL-ÄÖ"), "devel-ÄÖ");
    assert!(eq_ignore_ascii_case("Staging", "STAGING"));
    assert!(!eq_ignore_ascii_case("Stagin", "STAGING"));
    assert!(str_eq("abc", "abc"));
    assert!(!str_eq("abc", "abd"));
}

#[test]
fn profile_parsing_ignores_ascii_case() {
    assert_eq!(Profile::from_str("production"), Some(Profile::PRODUCTION));
    assert_eq!(Profile::from_str("TeStInG"), Some(Profile::TESTING));
    assert_eq!(Profile::from_str("prod"), None);
    assert_eq!(Profile::STAGING.to_string(), "STAGING");
}

#[test]
fn profile_round_trips_through_its_name() {
    for p in [Profile::DEVELOPMENT, Profile::TESTING, Profile::STAGING, Profile::PRODUCTION] {
        assert_eq!(Profile::from_str(p.as_str()), Some(p));
        assert_eq!(Profile::from_str(&p.as_str().to_lowercase()), Some(p));
    }
}

#[test]
fn profile_from_environment() {
    assert_eq!(get_profile(None), Profile::DEVELOPMENT);
    assert_eq!(get_profile(Some("staging")), Profile::STAGING);
    assert_eq!(get_profile(Some("unknown")), Profile::DEVELOPMENT);
}
