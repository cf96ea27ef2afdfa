//! Response envelopes and the error replies of the handlers.

use vstd::prelude::*;
use crate::text::{decimal_digits, u64_to_text};
use crate::validation::ValidationErrors;

verus! {

/// Successful response envelope.
#[derive(Clone, Debug)]
pub struct Response<T> {
    pub code: u16,
    pub message: String,
    pub data: T,
}

/// Display text of an envelope whose data displays as `data`.
pub open spec fn response_text(code: u16, message: Seq<char>, data: Seq<char>) -> Seq<char> {
    "{ \"code\": "@ + decimal_digits(code as nat) + ", \"message\": "@ + message + ", \"data\": "@ + data + "})"@
}

impl<T> Response<T> {
    /// Display text of the envelope, given the display text of its data.
    pub fn display_with(&self, data_text: &str) -> (r: String)
        ensures
            r@ == response_text(self.code, self.message@, data_text@),
    {
        let mut s = String::from_str("{ \"code\": ");
        let c = u64_to_text(self.code as u64);
        s.append(c.as_str());
        s.append(", \"message\": ");
        s.append(self.message.as_str());
        s.append(", \"data\": ");
        s.append(data_text);
        s.append("})");
        s
    }
}

/// Kinds of database failure the handlers distinguish.
#[derive(Clone, Copy, PartialEq, Eq, Structural, Debug)]
pub enum DbError {
    /// The database rejected the statement.
    DatabaseError,
    /// No row matched.
    NotFound,
    /// Any other failure.
    Other,
}

/// An error reply.
pub enum ErrResponse {
    /// 400 with the failed field rules.
    BadRequest(ValidationErrors),
    /// 404.
    NotFound,
    /// 500.
    InternalServerError,
}

/// HTTP status of an error reply.
pub open spec fn err_status(e: ErrResponse) -> u16 {
    match e {
        ErrResponse::BadRequest(_) => 400,
        ErrResponse::NotFound => 404,
        ErrResponse::InternalServerError => 500,
    }
}

/// Error replies answer with the status their kind calls for: a request
/// refused for failed rules is a client error, 400 Bad Request; a missing
/// row is 404 Not Found; only failed work on the server is 500.
pub proof fn lemma_error_reply_statuses(e: ErrResponse)
    ensures
        e is BadRequest ==> err_status(e) == 400,
        e is NotFound ==> err_status(e) == 404,
        e is InternalServerError ==> err_status(e) == 500,
        400 <= err_status(e) < 500 <==> !(e is InternalServerError),
{
}

impl ErrResponse {
    /// Reply to a database failure: no matching row is 404, anything else 500.
    pub fn from_db_error(e: DbError) -> (r: ErrResponse)
        ensures
            e == DbError::NotFound ==> r is NotFound,
            e != DbError::NotFound ==> r is InternalServerError,
    {
        match e {
            DbError::DatabaseError => ErrResponse::InternalServerError,
            DbError::NotFound => ErrResponse::NotFound,
            DbError::Other => ErrResponse::InternalServerError,
        }
    }

    /// Reply to a failed blocking task: always 500.
    pub fn from_blocking() -> (r: ErrResponse)
        ensures
            r is InternalServerError,
    {
        ErrResponse::InternalServerError
    }

    /// Reply to failed validation: 400 listing the failed rules.
    pub fn from_validation(errors: ValidationErrors) -> (r: ErrResponse)
        ensures
            r matches ErrResponse::BadRequest(e) && e@ == errors@,
    {
        ErrResponse::BadRequest(errors)
    }

    /// HTTP status of the reply.
    pub fn status(&self) -> (s: u16)
        ensures
            s == err_status(*self),
    {
        match self {
            ErrResponse::BadRequest(_) => 400,
            ErrResponse::NotFound => 404,
            ErrResponse::InternalServerError => 500,
        }
    }
}

} // verus!
