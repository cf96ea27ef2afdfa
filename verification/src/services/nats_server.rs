//! Handling of account requests arriving over NATS.

use vstd::prelude::*;
use crate::model::database::users::Register;
use crate::model::nats::message::{text_member, JsonValue, NatsRequest, NatsResponse};
use crate::text::{decimal_text, i64_to_text};

verus! {

/// A registration field read from a request payload: the text under `key`
/// when it is a non-empty string, otherwise absent.
pub open spec fn payload_field(data: crate::model::nats::message::JsonValue, key: Seq<char>) -> Option<Seq<char>> {
    match text_member(data, key) {
        Some(s) => if s.len() == 0 { None } else { Some(s) },
        None => None,
    }
}

fn non_empty(o: Option<String>) -> (r: Option<String>)
    ensures
        match o {
            Some(s) => if s@.len() == 0 { r is None } else { r matches Some(t) && t@ == s@ },
            None => r is None,
        },
{
    match o {
        Some(s) => if s.unicode_len() == 0 { None } else { Some(s) },
        None => None,
    }
}

impl Register {
    /// The registration carried by a NATS request: its `email` and
    /// `password` payload members, each absent when missing, not a string
    /// or empty.
    pub fn from(req: NatsRequest) -> (r: Register)
        ensures
            crate::validation::opt_view(r.email) == payload_field(req.data, "email"@),
            crate::validation::opt_view(r.password) == payload_field(req.data, "password"@),
    {
        let email = non_empty(req.data.text_member("email"));
        let password = non_empty(req.data.text_member("password"));
        Register { email, password }
    }
}

/// Topic on which account creations are consumed.
pub fn users_create_topic() -> (r: String)
    ensures
        r@ == "user.create"@,
{
    String::from_str("user.create")
}

/// What is printed after subscribing to `topic`: on success (when `announce`)
/// a readiness line, on failure the topic and the error.
pub fn subscription_report(topic: &str, result: Result<(), String>, announce: bool) -> (r: Option<String>)
    ensures
        match result {
            Ok(()) => if announce {
                r matches Some(l) && l@ == "Consumer: `"@ + topic@ + "` ready"@
            } else {
                r is None
            },
            Err(e) => r matches Some(l) && l@ == "[NATS][FAIL] Create subscriber for topic:`"@ + topic@ + "` fail | "@ + e@,
        },
{
    match result {
        Ok(()) => {
            if announce {
                let mut s = String::from_str("Consumer: `");
                s.append(topic);
                s.append("` ready");
                Some(s)
            } else {
                None
            }
        },
        Err(e) => {
            let mut s = String::from_str("[NATS][FAIL] Create subscriber for topic:`");
            s.append(topic);
            s.append("` fail | ");
            s.append(e.as_str());
            Some(s)
        },
    }
}

/// Reply to a NATS request, sent at `now` (seconds since the epoch): it
/// carries the request, an id made of the reply type followed by `now` in
/// decimal, `User Service` as sender, the data, `now` as send time, and the
/// outcome as status code and description. The reply type has no field of
/// its own in the message and lives on only in the id.
pub fn resp_nats(
    nats_req: NatsRequest,
    resp_type: &str,
    data: JsonValue,
    status_code: i16,
    status_des: String,
    now: i64,
) -> (r: NatsResponse)
    ensures
        r.request == Some(nats_req),
        r.id@ == resp_type@ + decimal_text(now as int),
        r.from@ == "User Service"@,
        r.data == data,
        r.send_time == now,
        r.status == status_code,
        r.status_des@ == status_des@,
{
    let mut id = String::from_str(resp_type);
    let stamp = i64_to_text(now);
    id.append(stamp.as_str());
    NatsResponse {
        request: Some(nats_req),
        id,
        from: String::from_str("User Service"),
        data,
        send_time: now,
        status: status_code,
        status_des,
    }
}

} // verus!
