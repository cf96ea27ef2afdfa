//! What the earlier request logging middleware writes for each request.

use vstd::prelude::*;
use crate::logging::{debug_str_text, debug_text};

verus! {

/// Wraps every service of the application in [`LoggingMiddleware`].
#[derive(Clone, Copy, Debug)]
pub struct LoggingRequestMiddleware;

/// Logs each request before passing it on.
#[derive(Clone, Copy, Debug)]
pub struct LoggingMiddleware;

/// What the middleware reads of a request; header values are given as the
/// debug text of the value (of an empty value when the header is absent).
pub struct RequestHeaders {
    pub accept: String,
    pub user_agent: String,
    pub host: String,
    pub has_authorization: bool,
    pub method: String,
    pub path: String,
    pub query: String,
}

/// Lines logged for a request.
pub open spec fn request_lines(r: RequestHeaders) -> Seq<Seq<char>> {
    seq![
        Seq::empty(),
        debug_str_text("accept"@) + ": "@ + r.accept@,
        debug_str_text("user-agent"@) + ": "@ + r.user_agent@,
        debug_str_text("host"@) + ": "@ + r.host@,
    ] + (if r.has_authorization {
        seq![debug_str_text("authorization"@) + ": \"****************************\""@]
    } else {
        Seq::empty()
    }) + seq!["\"path\": "@ + r.method@ + " "@ + debug_str_text(r.path@)]
        + (if r.query@.len() > 0 { seq!["\"query\": "@ + debug_str_text(r.query@)] } else { Seq::empty() })
}

fn join2(a: String, b: &str) -> (r: String)
    ensures
        r@ == a@ + b@,
{
    let mut a = a;
    a.append(b);
    a
}

impl LoggingMiddleware {
    /// Lines logged for a request.
    pub fn request_lines(r: &RequestHeaders) -> (lines: Vec<String>)
        ensures
            lines@.map_values(|l: String| l@) == request_lines(*r),
    {
        let mut lines: Vec<String> = Vec::new();
        lines.push(String::new());
        lines.push(join2(join2(debug_text("accept"), ": "), r.accept.as_str()));
        lines.push(join2(join2(debug_text("user-agent"), ": "), r.user_agent.as_str()));
        lines.push(join2(join2(debug_text("host"), ": "), r.host.as_str()));
        if r.has_authorization {
            lines.push(join2(debug_text("authorization"), ": \"****************************\""));
        }
        let path = join2(join2(join2(String::from_str("\"path\": "), r.method.as_str()), " "), debug_text(r.path.as_str()).as_str());
        lines.push(path);
        if r.query.unicode_len() > 0 {
            lines.push(join2(String::from_str("\"query\": "), debug_text(r.query.as_str()).as_str()));
        }
        assert(lines@.map_values(|l: String| l@) =~= request_lines(*r));
        lines
    }
}

} // verus!
