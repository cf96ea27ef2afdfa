//! Outcome kinds of a request, with their descriptions.

use vstd::prelude::*;
use crate::model::nats::message::JsonValue;
use crate::model::response::response::Response;

verus! {

/// How a request ended.
pub enum ServerResponse<T> {
    Success(Response<T>),
    BadRequest(JsonValue),
    NotFound,
    Unauthorized(String),
    Forbidden(String),
    InternalServerError,
    MethodNotAllowed,
    BadGateway,
    Conflict,
    UnprocessableEntity(JsonValue),
    RequestTimeOut,
}

/// Description of an outcome; for an unprocessable entity it ends with the
/// JSON text of the offending document.
pub open spec fn outcome_text<T>(r: ServerResponse<T>, json: Seq<char>) -> Seq<char> {
    match r {
        ServerResponse::Success(_) => "Success"@,
        ServerResponse::BadRequest(_) => "Bad Request"@,
        ServerResponse::NotFound => "Not Found"@,
        ServerResponse::Unauthorized(_) => "Unauthorized"@,
        ServerResponse::Forbidden(_) => "Forbidden"@,
        ServerResponse::InternalServerError => "Internal Server Error"@,
        ServerResponse::MethodNotAllowed => "Method Not Allowed"@,
        ServerResponse::BadGateway => "Bad Gateway"@,
        ServerResponse::Conflict => "Resource Exists"@,
        ServerResponse::UnprocessableEntity(_) => "Unprocessable Entity: "@ + json,
        ServerResponse::RequestTimeOut => "Request Time Out"@,
    }
}

impl<T> ServerResponse<T> {
    /// The description (`Display`), given the JSON text of the document an
    /// unprocessable entity carries (ignored for other outcomes).
    pub fn describe(&self, json: &str) -> (r: String)
        ensures
            r@ == outcome_text(*self, json@),
    {
        match self {
            ServerResponse::Success(_) => String::from_str("Success"),
            ServerResponse::BadRequest(_) => String::from_str("Bad Request"),
            ServerResponse::NotFound => String::from_str("Not Found"),
            ServerResponse::Unauthorized(_) => String::from_str("Unauthorized"),
            ServerResponse::Forbidden(_) => String::from_str("Forbidden"),
            ServerResponse::InternalServerError => String::from_str("Internal Server Error"),
            ServerResponse::MethodNotAllowed => String::from_str("Method Not Allowed"),
            ServerResponse::BadGateway => String::from_str("Bad Gateway"),
            ServerResponse::Conflict => String::from_str("Resource Exists"),
            ServerResponse::UnprocessableEntity(_) => {
                let mut s = String::from_str("Unprocessable Entity: ");
                s.append(json);
                s
            },
            ServerResponse::RequestTimeOut => String::from_str("Request Time Out"),
        }
    }
}

} // verus!
