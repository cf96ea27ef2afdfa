use libreauth::pass::{Algorithm, HashBuilder};
use user_service::model::enumerates::language::Language as NamedLanguage;
use user_service::model::domain::language::Language;
use user_service::settings::Settings;
use user_service::utils::hasher::{
    check_argon2_costs, default_hasher_scheme_version, hash_validation, try_hash_validation,
};
use user_service::controllers::users_controller::{hash_password_event, CreateUserEvent};
use user_service::utils::project_profile::Profile;

#[test]
fn coded_language_round_trip() {
    for l in [Language::En, Language::Ru, Language::De] {
        let b = l.to_sql();
        assert_eq!(Language::from_sql(Some(&b)), Ok(l));
    }
    assert_eq!(Language::En.to_sql(), b"en".to_vec());
    assert_eq!(Language::from_sql(Some(b"ru")), Ok(Language::Ru));
    assert_eq!(Language::from_sql(Some(b"RU")), Err("Unrecognized enumerate variant".to_string()));
    assert_eq!(Language::from_sql(None), Err("Unrecognized enumerate variant".to_string()));
}

#[test]
fn named_language_round_trip() {
    for l in [NamedLanguage::En, NamedLanguage::Ru, NamedLanguage::De] {
        let b = l.to_sql();
        assert_eq!(NamedLanguage::from_sql(&b), Ok(l));
    }
    assert_eq!(NamedLanguage::De.to_sql(), b"De".to_vec());
    assert_eq!(NamedLanguage::from_str("Ru"), Some(NamedLanguage::Ru));
    assert_eq!(NamedLanguage::from_str("ru"), None);
}

#[test]
fn named_language_rejects_bad_text() {
    assert_eq!(
        NamedLanguage::from_sql(&[0xff, 0xfe]),
        Err("Unrecognized enumerates variant".to_string())
    );
    assert_eq!(
        NamedLanguage::from_nullable_sql(None),
        Err("Unrecognized enumerates variant".to_string())
    );
    assert_eq!(NamedLanguage::from_nullable_sql(Some(b"En")), Ok(NamedLanguage::En));
}

#[test]
fn settings_sources_follow_profile() {
    let s = Settings::sources(Profile::STAGING);
    assert_eq!(s.default_key, "hasher.scheme_version");
    assert_eq!(s.default_value, "1");
    assert_eq!(s.files, vec!["./config/default.toml".to_string(), "./config/staging".to_string()]);
    assert_eq!(default_hasher_scheme_version(), 1);
}

fn stored_hash(password: &str) -> String {
    HashBuilder::new()
        .algorithm(Algorithm::Pbkdf2)
        .add_param("iter", "10000")
        .finalize()
        .unwrap()
        .hash(password)
        .unwrap()
}

#[test]
fn password_check() {
    let h = stored_hash("correct horse");
    assert!(hash_validation(h.clone(), "correct horse".to_string()));
    assert!(!hash_validation(h.clone(), "wrong horse!".to_string()));
    assert_eq!(try_hash_validation(h, "correct horse".to_string()), Some(true));
    assert_eq!(try_hash_validation("not a hash".to_string(), "x".to_string()), None);
}

#[test]
fn made_hash_checks_its_password() {
    let h = match hash_password_event(1, "correct horse", 0, 0) {
        CreateUserEvent::Hashed { hashed: Ok(h), .. } => h,
        _ => panic!("expected a hash"),
    };
    assert_ne!(h, "correct horse");
    assert!(h.starts_with("$argon2$"));
    assert!(h.contains("ver=2"));
    assert!(check_argon2_costs(&h));
    assert!(hash_validation(h.clone(), "correct horse".to_string()));
    assert!(!hash_validation(h, "wrong horse!".to_string()));
    assert!(matches!(hash_password_event(1, "short", 0, 0), CreateUserEvent::Hashed { hashed: Err(()), .. }));
    match hash_password_event(1, "mật khẩu tốt", 0, 0) {
        CreateUserEvent::Hashed { hashed: Ok(h), .. } => assert!(hash_validation(h, "mật khẩu tốt".to_string())),
        _ => panic!("expected a hash"),
    }
    match hash_password_event(6, "longer password", 0, 0) {
        CreateUserEvent::Hashed { hashed: Ok(h), .. } => assert!(h.contains("ver=7")),
        _ => panic!("expected a hash"),
    }
}

#[test]
fn conflicting_argon2_costs() {
    let conflict = "$argon2$mem=7,lanes=128$c29tZXNhbHQxMjM$YWJjZGVmZ2hpamtsbW5vcHFyc3R1dnd4eXphYmNkZWY";
    assert!(!check_argon2_costs(conflict));
    assert_eq!(try_hash_validation(conflict.to_string(), "password1".to_string()), None);
    // 2^7 KiB hold exactly 16 lanes of 8 KiB; a later entry replaces an earlier one.
    assert!(check_argon2_costs("$argon2$mem=7,lanes=16$c29tZXNhbHQ"));
    assert!(!check_argon2_costs("$argon2$mem=7,lanes=17$c29tZXNhbHQ"));
    assert!(check_argon2_costs("$argon2$mem=7,lanes=128,mem=10$c29tZXNhbHQ"));
    assert!(!check_argon2_costs("$argon2$mem=+0009,lanes=65"));
    assert!(check_argon2_costs("$argon2$mem=9,lanes=64"));
    assert!(check_argon2_costs("$argon2$lanes=128"));
    assert!(check_argon2_costs("$argon2$mem=6,lanes=128"));
    assert!(check_argon2_costs("$pbkdf2$mem=7,lanes=128"));
    // libreauth refuses these before hashing, so the costs never meet.
    assert!(check_argon2_costs("$argon2$mem=7,lanes=128,foo=1$c29tZXNhbHQ"));
    assert!(check_argon2_costs("$argon2$mem=7,lanes=128,passes=0$c29tZXNhbHQ"));
    assert!(check_argon2_costs("$argon2$mem=7,lanes=128,len=16$c29tZXNhbHQ"));
    assert!(!check_argon2_costs("$argon2$passes=3,mem=7,lanes=128,len=64,norm=nfkc,ver=2$c29tZXNhbHQ"));
}
