//! User accounts as stored, as inserted and as returned to clients.

use vstd::prelude::*;
use crate::model::enumerate::user_role::UserRole;
use crate::model::enumerate::user_status::UserStatus;
use crate::validation::opt_view;

verus! {

/// A stored account. Times are UTC instants in microseconds since the epoch.
#[derive(Clone, Debug)]
pub struct User {
    pub id: i32,
    pub email: String,
    pub user_name: Option<String>,
    pub hashed_password: String,
    pub first_name: Option<String>,
    pub last_name: Option<String>,
    pub phone_number: Option<String>,
    pub status: UserStatus,
    pub role: UserRole,
    pub created_by: String,
    pub created_time_utc: i64,
    pub updated_by: String,
    pub updated_time_utc: i64,
}

/// An account to insert; the store assigns the id.
#[derive(Clone, Debug)]
pub struct NewUser {
    pub email: String,
    pub user_name: Option<String>,
    pub hashed_password: String,
    pub first_name: Option<String>,
    pub last_name: Option<String>,
    pub phone_number: Option<String>,
    pub status: UserStatus,
    pub role: UserRole,
    pub created_by: String,
    pub created_time_utc: i64,
    pub updated_by: String,
    pub updated_time_utc: i64,
}

/// An account as shown to clients: no id and no password hash.
#[derive(Clone, Debug)]
pub struct ResponseUser {
    pub email: String,
    pub user_name: Option<String>,
    pub first_name: Option<String>,
    pub last_name: Option<String>,
    pub phone_number: Option<String>,
    pub status: UserStatus,
    pub role: UserRole,
    pub created_by: String,
    pub created_time_utc: i64,
    pub updated_by: String,
    pub updated_time_utc: i64,
}

/// `r` shows exactly the public fields of `u`.
pub open spec fn shows(r: ResponseUser, u: User) -> bool {
    &&& r.email@ == u.email@
    &&& opt_view(r.user_name) == opt_view(u.user_name)
    &&& opt_view(r.first_name) == opt_view(u.first_name)
    &&& opt_view(r.last_name) == opt_view(u.last_name)
    &&& opt_view(r.phone_number) == opt_view(u.phone_number)
    &&& r.status == u.status
    &&& r.role == u.role
    &&& r.created_by@ == u.created_by@
    &&& r.created_time_utc == u.created_time_utc
    &&& r.updated_by@ == u.updated_by@
    &&& r.updated_time_utc == u.updated_time_utc
}

/// `m` is `u` with the password hash replaced by the mask.
pub open spec fn masks(m: User, u: User) -> bool {
    &&& m.id == u.id
    &&& m.email@ == u.email@
    &&& opt_view(m.user_name) == opt_view(u.user_name)
    &&& m.hashed_password@ == password_mask()
    &&& opt_view(m.first_name) == opt_view(u.first_name)
    &&& opt_view(m.last_name) == opt_view(u.last_name)
    &&& opt_view(m.phone_number) == opt_view(u.phone_number)
    &&& m.status == u.status
    &&& m.role == u.role
    &&& m.created_by@ == u.created_by@
    &&& m.created_time_utc == u.created_time_utc
    &&& m.updated_by@ == u.updated_by@
    &&& m.updated_time_utc == u.updated_time_utc
}

/// What a password hash is shown as in logs.
pub open spec fn password_mask() -> Seq<char> {
    "********"@
}

/// A copy of an optional string.
pub fn clone_opt(o: &Option<String>) -> (r: Option<String>)
    ensures
        opt_view(r) == opt_view(*o),
{
    match o {
        Some(s) => Some(s.clone()),
        None => None,
    }
}

impl ResponseUser {
    /// The public view of an account (`From<User>`).
    pub fn from(user: User) -> (r: ResponseUser)
        ensures
            shows(r, user),
    {
        ResponseUser {
            email: user.email,
            user_name: user.user_name,
            first_name: user.first_name,
            last_name: user.last_name,
            phone_number: user.phone_number,
            status: user.status,
            role: user.role,
            created_by: user.created_by,
            created_time_utc: user.created_time_utc,
            updated_by: user.updated_by,
            updated_time_utc: user.updated_time_utc,
        }
    }

    /// The public view of a borrowed account (`From<&User>`).
    pub fn from_ref(user: &User) -> (r: ResponseUser)
        ensures
            shows(r, *user),
    {
        ResponseUser {
            email: user.email.clone(),
            user_name: clone_opt(&user.user_name),
            first_name: clone_opt(&user.first_name),
            last_name: clone_opt(&user.last_name),
            phone_number: clone_opt(&user.phone_number),
            status: user.status,
            role: user.role,
            created_by: user.created_by.clone(),
            created_time_utc: user.created_time_utc,
            updated_by: user.updated_by.clone(),
            updated_time_utc: user.updated_time_utc,
        }
    }
}

impl User {
    /// The account as it is written to logs: the password hash masked.
    pub fn masked(&self) -> (m: User)
        ensures
            masks(m, *self),
    {
        User {
            id: self.id,
            email: self.email.clone(),
            user_name: clone_opt(&self.user_name),
            hashed_password: String::from_str("********"),
            first_name: clone_opt(&self.first_name),
            last_name: clone_opt(&self.last_name),
            phone_number: clone_opt(&self.phone_number),
            status: self.status,
            role: self.role,
            created_by: self.created_by.clone(),
            created_time_utc: self.created_time_utc,
            updated_by: self.updated_by.clone(),
            updated_time_utc: self.updated_time_utc,
        }
    }
}

} // verus!
