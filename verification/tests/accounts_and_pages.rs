use user_service::controllers::users_controller::{
    create_user, get_all_users, hash_password_event, CreateUserAction, CreateUserEvent, CreateUserState, ListUsersAction,
    ListUsersEvent, ListUsersState, Reply,
};
use user_service::model::domain::pagination_result::PaginationResult;
use user_service::model::domain::users::{ResponseUser, User};
use user_service::model::enumerate::user_role::UserRole;
use user_service::model::enumerate::user_status::UserStatus;
use user_service::model::request::page_request::PageRequest;
use user_service::model::request::user::register_request::Register;
use user_service::model::requests::language_request::LanguageRequest;
use user_service::model::response::page_result::PageResponse;
use user_service::model::response::response::{DbError, ErrResponse, Response};
use user_service::utils::hasher::hash_validation;
use user_service::repositories::users_repository::{get_all_users as page_of, page_start_id, transaction_end, TransactionEnd};
use user_service::utils::translations::Lang;

fn user(id: i32, email: &str) -> User {
    User {
        id,
        email: email.to_string(),
        user_name: Some("jane".to_string()),
        hashed_password: "$pbkdf2$secret".to_string(),
        first_name: None,
        last_name: Some("Doe".to_string()),
        phone_number: None,
        status: UserStatus::Active,
        role: UserRole::Admin,
        created_by: "REGISTER".to_string(),
        created_time_utc: 1_700_000_000_000_000,
        updated_by: "ADMIN".to_string(),
        updated_time_utc: 1_700_000_100_000_000,
    }
}

#[test]
fn response_user_hides_id_and_hash() {
    let u = user(7, "jane@example.org");
    let r = ResponseUser::from_ref(&u);
    assert_eq!(r.email, "jane@example.org");
    assert_eq!(r.user_name.as_deref(), Some("jane"));
    assert_eq!(r.last_name.as_deref(), Some("Doe"));
    assert_eq!(r.role, UserRole::Admin);
    assert_eq!(r.updated_time_utc, 1_700_000_100_000_000);
    let moved = ResponseUser::from(u);
    assert_eq!(moved.updated_by, "ADMIN");
}

#[test]
fn masked_user_hides_hash_only() {
    let u = user(7, "jane@example.org");
    let m = u.masked();
    assert_eq!(m.hashed_password, "********");
    assert_eq!(m.id, 7);
    assert_eq!(m.email, u.email);
}

#[test]
fn page_assembly_rounds_pages_up() {
    let p = page_of(2, 10, Some(25), Some(vec![user(21, "a@b.c"), user(22, "d@e.f")]));
    assert_eq!(p.data.len(), 2);
    assert_eq!(p.pageable.total_pages, 3);
    assert_eq!(p.pageable.total_elements, 25);
    assert_eq!(p.pageable.number_of_elements, 2);
    assert_eq!(p.pageable.page, 2);
    assert_eq!(p.pageable.page_size, 10);
    let exact = page_of(0, 5, Some(10), None);
    assert_eq!(exact.pageable.total_pages, 2);
    assert!(exact.data.is_empty());
    let failed = page_of(0, 5, None, None);
    assert_eq!(failed.pageable.total_pages, 0);
    assert_eq!(failed.pageable.total_elements, 0);
}

#[test]
fn page_cursor_start() {
    assert_eq!(page_start_id(3, 10), 30);
    assert_eq!(page_start_id(0, 10), 0);
    assert_eq!(page_start_id(1, 1i64 << 32), 0);
}

#[test]
fn transactions_commit_only_on_success() {
    assert_eq!(transaction_end(true), TransactionEnd::Commit);
    assert_eq!(transaction_end(false), TransactionEnd::Rollback);
}

#[test]
fn page_of_users_becomes_public_page() {
    let p = PageResponse {
        data: vec![user(1, "a@b.c"), user(2, "d@e.f")],
        pageable: PaginationResult { number_of_elements: 2, page: 0, page_size: 10, total_pages: 1, total_elements: 2 },
    };
    let r = PageResponse::<ResponseUser>::from(p);
    assert_eq!(r.data.len(), 2);
    assert_eq!(r.data[1].email, "d@e.f");
    assert_eq!(r.pageable.total_pages, 1);
}

#[test]
fn error_replies() {
    assert!(matches!(ErrResponse::from_db_error(DbError::NotFound), ErrResponse::NotFound));
    assert!(matches!(ErrResponse::from_db_error(DbError::DatabaseError), ErrResponse::InternalServerError));
    assert!(matches!(ErrResponse::from_db_error(DbError::Other), ErrResponse::InternalServerError));
    assert_eq!(ErrResponse::from_blocking().status(), 500);
    assert_eq!(ErrResponse::NotFound.status(), 404);
}

#[test]
fn response_display() {
    let r = Response { code: 0, message: "Success".to_string(), data: 5 };
    assert_eq!(r.display_with("5"), "{ \"code\": 0, \"message\": Success, \"data\": 5})");
}

fn registration(email: Option<&str>) -> CreateUserEvent {
    CreateUserEvent::Received {
        register: Register {
            email: email.map(|s| s.to_string()),
            password: Some("correct horse".to_string()),
            otp_code: Some("123456".to_string()),
        },
        language: LanguageRequest { value: "en".to_string() },
    }
}

#[test]
fn create_user_happy_path() {
    let (s, a) = create_user(CreateUserState::Start, registration(Some("jane@example.org")));
    match a {
        CreateUserAction::HashPassword { password } => assert_eq!(password, "correct horse"),
        _ => panic!("expected hashing"),
    }
    let (s, a) = create_user(
        s,
        CreateUserEvent::Hashed { hashed: Ok("$hash".to_string()), created_utc: 10, updated_utc: 11 },
    );
    let new_user = match a {
        CreateUserAction::SaveUser { user } => user,
        _ => panic!("expected insert"),
    };
    assert_eq!(new_user.email, "jane@example.org");
    assert_eq!(new_user.hashed_password, "$hash");
    assert_eq!(new_user.status, UserStatus::Inactive);
    assert_eq!(new_user.role, UserRole::User);
    assert_eq!(new_user.created_by, "REGISTER");
    assert_eq!(new_user.updated_by, "REGISTER");
    assert_eq!((new_user.created_time_utc, new_user.updated_time_utc), (10, 11));
    let (s, a) = create_user(s, CreateUserEvent::Saved { saved: Ok(user(9, "jane@example.org")) });
    assert!(matches!(s, CreateUserState::Done));
    match a {
        CreateUserAction::Reply(Reply::Success { lang, code, data }) => {
            assert_eq!(lang, Lang::En);
            assert_eq!(code, 0);
            assert_eq!(data.email, "jane@example.org");
        }
        _ => panic!("expected success"),
    }
}

#[test]
fn create_user_rejects_invalid_registration() {
    let (s, a) = create_user(CreateUserState::Start, registration(None));
    assert!(matches!(s, CreateUserState::Done));
    match a {
        CreateUserAction::Reply(Reply::Failure(ErrResponse::BadRequest(e))) => {
            assert_eq!(e.errors.len(), 1);
            assert_eq!(e.errors[0].field, "email");
        }
        _ => panic!("expected bad request"),
    }
}

#[test]
fn create_user_failures_answer_500() {
    let (s, _) = create_user(CreateUserState::Start, registration(Some("jane@example.org")));
    let (s2, a) = create_user(s, CreateUserEvent::Hashed { hashed: Err(()), created_utc: 0, updated_utc: 0 });
    assert!(matches!(s2, CreateUserState::Done));
    assert!(matches!(a, CreateUserAction::Reply(Reply::Failure(ErrResponse::InternalServerError))));
    let (s, _) = create_user(
        CreateUserState::Hashing { lang: Lang::Vn, email: "x@y.z".to_string() },
        CreateUserEvent::Hashed { hashed: Ok("h".to_string()), created_utc: 0, updated_utc: 0 },
    );
    let (_, a) = create_user(s, CreateUserEvent::Saved { saved: Err(()) });
    assert!(matches!(a, CreateUserAction::Reply(Reply::Failure(ErrResponse::InternalServerError))));
}

#[test]
fn unknown_language_falls_back_to_vietnamese() {
    let ev = CreateUserEvent::Received {
        register: Register {
            email: Some("jane@example.org".to_string()),
            password: Some("correct horse".to_string()),
            otp_code: Some("123456".to_string()),
        },
        language: LanguageRequest { value: "fr".to_string() },
    };
    match create_user(CreateUserState::Start, ev).0 {
        CreateUserState::Hashing { lang, .. } => assert_eq!(lang, Lang::Vn),
        _ => panic!("expected hashing"),
    }
    assert_eq!(Lang::detect("en"), Lang::En);
    assert_eq!(Lang::from_language_id("EN"), None);
    assert_eq!(Lang::En.language_id(), "en");
    assert_eq!(Lang::fallback(), Lang::Vn);
}

#[test]
fn list_users_flow() {
    let ev = ListUsersEvent::Received {
        pagination: PageRequest { page: 1, pagesize: 2 },
        language: LanguageRequest { value: "vn".to_string() },
    };
    let (s, a) = get_all_users(ListUsersState::Start, ev);
    match a {
        ListUsersAction::Query { page, page_size } => assert_eq!((page, page_size), (1, 2)),
        _ => panic!("expected query"),
    }
    let page = PageResponse {
        data: vec![user(3, "a@b.c")],
        pageable: PaginationResult { number_of_elements: 1, page: 1, page_size: 2, total_pages: 2, total_elements: 3 },
    };
    let (s, a) = get_all_users(s, ListUsersEvent::Queried { result: Ok(page) });
    assert!(matches!(s, ListUsersState::Done));
    match a {
        ListUsersAction::Reply(Reply::Success { lang, code, data }) => {
            assert_eq!(lang, Lang::Vn);
            assert_eq!(code, 0);
            assert_eq!(data.data[0].email, "a@b.c");
            assert_eq!(data.pageable.total_elements, 3);
        }
        _ => panic!("expected success"),
    }
}

#[test]
fn list_users_bad_paging_and_failed_query() {
    let ev = ListUsersEvent::Received {
        pagination: PageRequest { page: 0, pagesize: 0 },
        language: LanguageRequest { value: "vn".to_string() },
    };
    let (_, a) = get_all_users(ListUsersState::Start, ev);
    assert!(matches!(a, ListUsersAction::Reply(Reply::Failure(ErrResponse::BadRequest(_)))));
    let (_, a) = get_all_users(ListUsersState::Querying { lang: Lang::En }, ListUsersEvent::Queried { result: Err(()) });
    assert!(matches!(a, ListUsersAction::Reply(Reply::Failure(ErrResponse::InternalServerError))));
}

#[test]
fn saved_account_stores_a_hash_of_the_password() {
    let (s, a) = create_user(CreateUserState::Start, registration(Some("jane@example.org")));
    let password = match a {
        CreateUserAction::HashPassword { password } => password,
        _ => panic!("expected hashing"),
    };
    let event = hash_password_event(1, &password, 10, 11);
    let (_, a) = create_user(s, event);
    let user = match a {
        CreateUserAction::SaveUser { user } => user,
        _ => panic!("expected insert"),
    };
    assert_ne!(user.hashed_password, "correct horse");
    assert_eq!(user.created_time_utc, 10);
    assert_eq!(user.updated_time_utc, 11);
    assert!(hash_validation(user.hashed_password.clone(), "correct horse".to_string()));
    assert!(!hash_validation(user.hashed_password, "correct horse!".to_string()));
}
