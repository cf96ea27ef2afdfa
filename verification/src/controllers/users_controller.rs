//! Decisions of the account endpoints. Each handler alternates work the
//! caller performs (hashing, database access) with decisions; the decisions
//! are a step function from the handler's state and the latest event to its
//! next state and the next thing to do.

use vstd::prelude::*;
use crate::model::domain::users::{shows, NewUser, ResponseUser, User};
use crate::model::enumerate::logic_code::StatusCode;
use crate::model::enumerate::user_role::UserRole;
use crate::model::enumerate::user_status::UserStatus;
use crate::model::request::page_request::{page_request_errors, PageRequest};
use crate::model::request::user::register_request::{register_errors, Register};
use crate::model::requests::language_request::LanguageRequest;
use crate::model::response::page_result::PageResponse;
use crate::model::response::response::ErrResponse;
use crate::text::decimal_digits;
use crate::utils::hasher::{argon2_costs_consistent, argon2_params, hash_password, last_value, normalized_password_len, phc_matches, phc_readable};
use crate::utils::translations::{detected_lang, Lang};
use crate::validation::opt_view;

verus! {

/// What a handler finally answers: a success envelope (its message is the
/// success text of `lang`) or an error reply.
pub enum Reply<T> {
    Success { lang: Lang, code: u16, data: T },
    Failure(ErrResponse),
}

// ---- POST /api/v1/users ----

/// Where account creation stands.
pub enum CreateUserState {
    /// Nothing received yet.
    Start,
    /// Waiting for the password hash.
    Hashing { lang: Lang, email: String },
    /// Waiting for the insert.
    Saving { lang: Lang },
    /// Answered.
    Done,
}

/// What happened last.
pub enum CreateUserEvent {
    /// The request arrived.
    Received { register: Register, language: LanguageRequest },
    /// Hashing finished (an error is a failed or cancelled task); the two
    /// instants are the creation and update times to record.
    Hashed { hashed: Result<String, ()>, created_utc: i64, updated_utc: i64 },
    /// The insert finished.
    Saved { saved: Result<User, ()> },
}

/// What to do next.
pub enum CreateUserAction {
    /// Hash this password.
    HashPassword { password: String },
    /// Insert this account.
    SaveUser { user: NewUser },
    /// Answer.
    Reply(Reply<ResponseUser>),
}

/// Whether the event is the one the state waits for.
pub open spec fn create_user_expects(s: CreateUserState, e: CreateUserEvent) -> bool {
    match s {
        CreateUserState::Start => e is Received,
        CreateUserState::Hashing { .. } => e is Hashed,
        CreateUserState::Saving { .. } => e is Saved,
        CreateUserState::Done => false,
    }
}

/// `u` is the account a registration inserts.
pub open spec fn registered_user(u: NewUser, email: Seq<char>, hash: Seq<char>, created: i64, updated: i64) -> bool {
    &&& u.email@ == email
    &&& u.user_name is None
    &&& u.hashed_password@ == hash
    &&& u.first_name is None
    &&& u.last_name is None
    &&& u.phone_number is None
    &&& u.status == UserStatus::Inactive
    &&& u.role == UserRole::User
    &&& u.created_by@ == "REGISTER"@
    &&& u.created_time_utc == created
    &&& u.updated_by@ == "REGISTER"@
    &&& u.updated_time_utc == updated
}

/// The step relation of account creation.
pub open spec fn create_user_step(s: CreateUserState, e: CreateUserEvent, s2: CreateUserState, a: CreateUserAction) -> bool {
    match (s, e) {
        (CreateUserState::Start, CreateUserEvent::Received { register, language }) => {
            let errs = register_errors(register);
            if errs.len() > 0 {
                &&& s2 is Done
                &&& a matches CreateUserAction::Reply(Reply::Failure(ErrResponse::BadRequest(v))) && v@ == errs
            } else {
                &&& s2 matches CreateUserState::Hashing { lang, email }
                    && lang == detected_lang(language.value@)
                    && opt_view(register.email) == Some(email@)
                &&& a matches CreateUserAction::HashPassword { password }
                    && opt_view(register.password) == Some(password@)
            }
        },
        (CreateUserState::Hashing { lang, email }, CreateUserEvent::Hashed { hashed, created_utc, updated_utc }) => {
            match hashed {
                Err(_) => s2 is Done && a matches CreateUserAction::Reply(Reply::Failure(ErrResponse::InternalServerError)),
                Ok(h) => {
                    &&& s2 matches CreateUserState::Saving { lang: l2 } && l2 == lang
                    &&& a matches CreateUserAction::SaveUser { user }
                        && registered_user(user, email@, h@, created_utc, updated_utc)
                },
            }
        },
        (CreateUserState::Saving { lang }, CreateUserEvent::Saved { saved }) => {
            &&& s2 is Done
            &&& match saved {
                Err(_) => a matches CreateUserAction::Reply(Reply::Failure(ErrResponse::InternalServerError)),
                Ok(u) => a matches CreateUserAction::Reply(Reply::Success { lang: l2, code, data })
                    && l2 == lang && code == 0 && shows(data, u),
            }
        },
        _ => false,
    }
}

/// `hashed` is a hash made from `password`: libreauth reads it back, its
/// Argon2 costs are consistent, the password matches it, and it is not the
/// password itself.
pub open spec fn hash_of_password(hashed: Result<String, ()>, password: Seq<char>) -> bool {
    hashed matches Ok(h) ==> phc_readable(h@) && argon2_costs_consistent(h@) && phc_matches(h@, password)
        && h@ != password
}

/// `hashed` records the scheme version: its `ver` parameter is one more
/// than the configured version (libreauth's internal version is added).
pub open spec fn hash_has_version(hashed: Result<String, ()>, scheme_version: usize) -> bool {
    hashed matches Ok(h) ==> last_value(argon2_params(h@), "ver"@, 0) == Some(decimal_digits((scheme_version + 1) as nat))
}

/// Performs the `HashPassword` action: hashes the password with the
/// configured scheme version and gives the event that reports it, with the
/// creation and update times to record. Hashing succeeds exactly when the
/// password has 8 to 128 code points after NFKC normalisation.
pub fn hash_password_event(scheme_version: usize, password: &str, created_utc: i64, updated_utc: i64) -> (e: CreateUserEvent)
    requires
        scheme_version < usize::MAX,
    ensures
        e matches CreateUserEvent::Hashed { hashed, created_utc: c, updated_utc: u }
            && c == created_utc && u == updated_utc
            && hash_of_password(hashed, password@)
            && hash_has_version(hashed, scheme_version)
            && (8 <= normalized_password_len(password@) <= 128 <==> hashed is Ok),
{
    let hashed = hash_password(scheme_version, password);
    CreateUserEvent::Hashed { hashed, created_utc, updated_utc }
}

/// One step of account creation: validate the registration, then have the
/// password hashed, then have the account inserted, then answer with its
/// public view. Validation failures answer 400 with the failed rules; a
/// failed hash or insert answers 500.
pub fn create_user(s: CreateUserState, e: CreateUserEvent) -> (r: (CreateUserState, CreateUserAction))
    requires
        create_user_expects(s, e),
    ensures
        create_user_step(s, e, r.0, r.1),
{
    match s {
        CreateUserState::Start => match e {
            CreateUserEvent::Received { register, language } => {
                match register.validate() {
                    Err(errors) => (
                        CreateUserState::Done,
                        CreateUserAction::Reply(Reply::Failure(ErrResponse::from_validation(errors))),
                    ),
                    Ok(()) => {
                        let lang = Lang::detect(language.value.as_str());
                        let password = match register.password {
                            Some(p) => p,
                            None => String::new(),
                        };
                        let email = match register.email {
                            Some(m) => m,
                            None => String::new(),
                        };
                        (CreateUserState::Hashing { lang, email }, CreateUserAction::HashPassword { password })
                    },
                }
            },
            _ => (CreateUserState::Done, CreateUserAction::Reply(Reply::Failure(ErrResponse::from_blocking()))),
        },
        CreateUserState::Hashing { lang, email } => match e {
            CreateUserEvent::Hashed { hashed, created_utc, updated_utc } => match hashed {
                Err(_) => (CreateUserState::Done, CreateUserAction::Reply(Reply::Failure(ErrResponse::from_blocking()))),
                Ok(h) => {
                    let user = NewUser {
                        email,
                        user_name: None,
                        hashed_password: h,
                        first_name: None,
                        last_name: None,
                        phone_number: None,
                        status: UserStatus::Inactive,
                        role: UserRole::User,
                        created_by: String::from_str("REGISTER"),
                        created_time_utc: created_utc,
                        updated_by: String::from_str("REGISTER"),
                        updated_time_utc: updated_utc,
                    };
                    (CreateUserState::Saving { lang }, CreateUserAction::SaveUser { user })
                },
            },
            _ => (CreateUserState::Done, CreateUserAction::Reply(Reply::Failure(ErrResponse::from_blocking()))),
        },
        CreateUserState::Saving { lang } => match e {
            CreateUserEvent::Saved { saved } => match saved {
                Err(_) => (CreateUserState::Done, CreateUserAction::Reply(Reply::Failure(ErrResponse::from_blocking()))),
                Ok(u) => (
                    CreateUserState::Done,
                    CreateUserAction::Reply(Reply::Success { lang, code: 0, data: ResponseUser::from(u) }),
                ),
            },
            _ => (CreateUserState::Done, CreateUserAction::Reply(Reply::Failure(ErrResponse::from_blocking()))),
        },
        CreateUserState::Done => (CreateUserState::Done, CreateUserAction::Reply(Reply::Failure(ErrResponse::from_blocking()))),
    }
}

// ---- GET /api/v1/users ----

/// Where the listing stands.
pub enum ListUsersState {
    Start,
    /// Waiting for the page from the database.
    Querying { lang: Lang },
    Done,
}

/// What happened last.
pub enum ListUsersEvent {
    Received { pagination: PageRequest, language: LanguageRequest },
    /// The transaction finished (an error is a failed query or task).
    Queried { result: Result<PageResponse<User>, ()> },
}

/// What to do next.
pub enum ListUsersAction {
    /// Load this page inside a transaction.
    Query { page: i64, page_size: i64 },
    Reply(Reply<PageResponse<ResponseUser>>),
}

/// Whether the event is the one the state waits for.
pub open spec fn list_users_expects(s: ListUsersState, e: ListUsersEvent) -> bool {
    match s {
        ListUsersState::Start => e is Received,
        ListUsersState::Querying { .. } => e is Queried,
        ListUsersState::Done => false,
    }
}

/// The step relation of the listing.
pub open spec fn list_users_step(s: ListUsersState, e: ListUsersEvent, s2: ListUsersState, a: ListUsersAction) -> bool {
    match (s, e) {
        (ListUsersState::Start, ListUsersEvent::Received { pagination, language }) => {
            let errs = page_request_errors(pagination);
            if errs.len() > 0 {
                &&& s2 is Done
                &&& a matches ListUsersAction::Reply(Reply::Failure(ErrResponse::BadRequest(v))) && v@ == errs
            } else {
                &&& s2 matches ListUsersState::Querying { lang } && lang == detected_lang(language.value@)
                &&& a matches ListUsersAction::Query { page, page_size }
                    && page == pagination.page && page_size == pagination.pagesize
            }
        },
        (ListUsersState::Querying { lang }, ListUsersEvent::Queried { result }) => {
            &&& s2 is Done
            &&& match result {
                Err(_) => a matches ListUsersAction::Reply(Reply::Failure(ErrResponse::InternalServerError)),
                Ok(p) => a matches ListUsersAction::Reply(Reply::Success { lang: l2, code, data })
                    && l2 == lang && code == 0
                    && data.pageable == p.pageable
                    && data.data.len() == p.data.len()
                    && forall|i: int| 0 <= i < data.data.len() ==> shows(#[trigger] data.data@[i], p.data@[i]),
            }
        },
        _ => false,
    }
}

/// One step of the listing: validate the paging, then have the page loaded,
/// then answer with the public view of the accounts on it. Validation
/// failures answer 400 with the failed rules; a failed query answers 500.
pub fn get_all_users(s: ListUsersState, e: ListUsersEvent) -> (r: (ListUsersState, ListUsersAction))
    requires
        list_users_expects(s, e),
    ensures
        list_users_step(s, e, r.0, r.1),
{
    match s {
        ListUsersState::Start => match e {
            ListUsersEvent::Received { pagination, language } => match pagination.validate() {
                Err(errors) => (
                    ListUsersState::Done,
                    ListUsersAction::Reply(Reply::Failure(ErrResponse::from_validation(errors))),
                ),
                Ok(()) => {
                    let lang = Lang::detect(language.value.as_str());
                    (
                        ListUsersState::Querying { lang },
                        ListUsersAction::Query { page: pagination.page, page_size: pagination.pagesize },
                    )
                },
            },
            _ => (ListUsersState::Done, ListUsersAction::Reply(Reply::Failure(ErrResponse::from_blocking()))),
        },
        ListUsersState::Querying { lang } => match e {
            ListUsersEvent::Queried { result } => match result {
                Err(_) => (ListUsersState::Done, ListUsersAction::Reply(Reply::Failure(ErrResponse::from_blocking()))),
                Ok(p) => {
                    let data = PageResponse::<ResponseUser>::from(p);
                    let code = StatusCode::SUCCESS.into();
                    (ListUsersState::Done, ListUsersAction::Reply(Reply::Success { lang, code, data }))
                },
            },
            _ => (ListUsersState::Done, ListUsersAction::Reply(Reply::Failure(ErrResponse::from_blocking()))),
        },
        ListUsersState::Done => (ListUsersState::Done, ListUsersAction::Reply(Reply::Failure(ErrResponse::from_blocking()))),
    }
}

/// An account is only ever inserted for a registration that passed
/// validation: the insert comes right after hashing, carries the
/// registration's e-mail, and stores the text the hashing step reported for
/// the registration's password.
pub proof fn lemma_saved_accounts_were_validated(
    register: Register,
    language: LanguageRequest,
    s1: CreateUserState,
    a1: CreateUserAction,
    e2: CreateUserEvent,
    s2: CreateUserState,
    a2: CreateUserAction,
)
    requires
        create_user_step(CreateUserState::Start, CreateUserEvent::Received { register, language }, s1, a1),
        create_user_step(s1, e2, s2, a2),
        a2 is SaveUser,
    ensures
        register_errors(register).len() == 0,
        a1 matches CreateUserAction::HashPassword { password } && opt_view(register.password) == Some(password@),
        e2 matches CreateUserEvent::Hashed { hashed, .. } && hashed matches Ok(h)
            && a2 matches CreateUserAction::SaveUser { user }
            && user.hashed_password@ == h@
            && opt_view(register.email) == Some(user.email@),
{
}

/// When the hashing step reports a hash made from the password it was asked
/// to hash (as [`hash_password_event`] does), the inserted account's stored
/// hash is not the password, libreauth reads it back with consistent Argon2
/// costs, and the registration's password matches it: `hash_validation` of the stored hash
/// and that password answers `true`.
pub proof fn lemma_saved_hash_checks_password(
    register: Register,
    language: LanguageRequest,
    s1: CreateUserState,
    a1: CreateUserAction,
    e2: CreateUserEvent,
    s2: CreateUserState,
    a2: CreateUserAction,
)
    requires
        create_user_step(CreateUserState::Start, CreateUserEvent::Received { register, language }, s1, a1),
        create_user_step(s1, e2, s2, a2),
        a1 matches CreateUserAction::HashPassword { password }
            && e2 matches CreateUserEvent::Hashed { hashed, .. } && hash_of_password(hashed, password@),
        a2 is SaveUser,
    ensures
        a2 matches CreateUserAction::SaveUser { user } && opt_view(register.password) matches Some(p)
            && user.hashed_password@ != p
            && phc_readable(user.hashed_password@)
            && argon2_costs_consistent(user.hashed_password@)
            && phc_matches(user.hashed_password@, p),
{
}

/// Every answer ends the flow, and a success answer of account creation is
/// only given after the insert succeeded, showing the inserted account.
pub proof fn lemma_answers_end_the_flow(s: CreateUserState, e: CreateUserEvent, s2: CreateUserState, a: CreateUserAction)
    requires
        create_user_step(s, e, s2, a),
    ensures
        a is Reply ==> s2 is Done,
        a matches CreateUserAction::Reply(Reply::Success { data, .. }) ==> s is Saving,
        a matches CreateUserAction::Reply(Reply::Success { data, .. }) ==> (e matches CreateUserEvent::Saved { saved }
            && (saved matches Ok(u) && shows(data, u))),
{
}

} // verus!
