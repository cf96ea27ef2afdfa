//! What the request logging middleware writes for each request.

use vstd::prelude::*;
use crate::logging::{debug_str_text, debug_text};
use crate::text::decimal_text;
use crate::text::i64_to_text;

verus! {

/// Wraps every service of the application in [`LoggingMiddleware`].
#[derive(Clone, Copy, Debug)]
pub struct LoggingRequestMiddleware;

/// Logs each request before passing it on, and its duration after.
#[derive(Clone, Copy, Debug)]
pub struct LoggingMiddleware;

/// What the middleware reads of a request.
pub struct RequestInfo {
    /// Debug text of the `User-Agent` header value (of an empty value when
    /// the header is absent).
    pub user_agent: String,
    /// Address of the peer, when known.
    pub peer_addr: Option<String>,
    pub has_authorization: bool,
    pub method: String,
    pub path: String,
    pub query: String,
}

/// Mask logged in place of credentials.
pub open spec fn credential_mask() -> Seq<char> {
    ": \"****************************\""@
}

/// Lines logged when a request starts.
pub open spec fn start_lines(id: Seq<char>, r: RequestInfo) -> Seq<Seq<char>> {
    seq![
        "----- Start Request ["@ + id + "]"@,
        debug_str_text("user-agent"@) + ": "@ + r.user_agent@,
        debug_str_text("from"@) + ": "@ + debug_str_text(match r.peer_addr {
            Some(p) => p@,
            None => "-"@,
        }),
    ] + (if r.has_authorization {
        seq![debug_str_text("authorization"@) + credential_mask()]
    } else {
        Seq::empty()
    }) + seq!["\"path\": "@ + r.method@ + " "@ + debug_str_text(r.path@)]
        + (if r.query@.len() > 0 { seq!["\"query\": "@ + debug_str_text(r.query@)] } else { Seq::empty() })
}

/// Whether a request body is logged: it is not empty and the method is
/// neither `GET` nor `HEAD`.
pub open spec fn logs_body(body_len: nat, method: Seq<char>) -> bool {
    body_len > 0 && method != "GET"@ && method != "HEAD"@
}

/// The compact JSON text of a request body: present when the bytes parse
/// as a JSON document (`serde_json::from_slice::<serde_json::Value>`), and
/// then that document printed back (`Value::to_string`).
pub uninterp spec fn compact_json_text(b: Seq<u8>) -> Option<Seq<char>>;

/// Parses a request body as JSON and prints it back compactly with
/// serde_json (`from_slice` into a `Value`, then `to_string`). Object
/// members come out ordered by key, as serde_json's default map keeps
/// them. Stated: the outcome is a function of the bytes alone.
#[verifier::external_body]
pub(crate) fn body_json_text(body: &[u8]) -> (r: Option<String>)
    ensures
        match r {
            Some(s) => compact_json_text(body@) == Some(s@),
            None => compact_json_text(body@) is None,
        },
{
    match serde_json::from_slice::<serde_json::Value>(body) {
        Ok(v) => Some(v.to_string()),
        Err(_) => None,
    }
}

/// Which request bodies are logged: every non-empty body of a request whose
/// method is neither `GET` nor `HEAD` (so `POST`, `PUT`, `PATCH`, `DELETE`
/// and any other method), and no body of a `GET` or `HEAD` request, nor an
/// empty one.
pub proof fn lemma_logged_bodies(body_len: nat, method: Seq<char>)
    ensures
        body_len > 0 && method != "GET"@ && method != "HEAD"@ ==> logs_body(body_len, method),
        method == "GET"@ || method == "HEAD"@ ==> !logs_body(body_len, method),
        body_len == 0 ==> !logs_body(body_len, method),
        body_len > 0 && (method == "POST"@ || method == "PUT"@ || method == "PATCH"@ || method == "DELETE"@)
            ==> logs_body(body_len, method),
{
    reveal_strlit("GET");
    reveal_strlit("HEAD");
    reveal_strlit("POST");
    reveal_strlit("PUT");
    reveal_strlit("PATCH");
    reveal_strlit("DELETE");
    assert("POST"@ != "GET"@ && "POST"@ != "HEAD"@) by {
        assert("POST"@[0] != "GET"@[0] && "POST"@[0] != "HEAD"@[0]);
    }
    assert("PUT"@ != "GET"@ && "PUT"@ != "HEAD"@) by {
        assert("PUT"@[0] != "GET"@[0] && "PUT"@[0] != "HEAD"@[0]);
    }
    assert("PATCH"@ != "GET"@ && "PATCH"@ != "HEAD"@) by {
        assert("PATCH"@[0] != "GET"@[0] && "PATCH"@[0] != "HEAD"@[0]);
    }
    assert("DELETE"@ != "GET"@ && "DELETE"@ != "HEAD"@) by {
        assert("DELETE"@[0] != "GET"@[0] && "DELETE"@[0] != "HEAD"@[0]);
    }
}

/// Views of log lines.
pub open spec fn lines_view(v: Seq<String>) -> Seq<Seq<char>> {
    v.map_values(|l: String| l@)
}

fn join2(a: String, b: &str) -> (r: String)
    ensures
        r@ == a@ + b@,
{
    let mut a = a;
    a.append(b);
    a
}

impl LoggingMiddleware {
    /// Lines logged when a request with the given id starts.
    pub fn start_lines(id: &str, r: &RequestInfo) -> (lines: Vec<String>)
        ensures
            lines_view(lines@) == start_lines(id@, *r),
    {
        let mut lines: Vec<String> = Vec::new();
        let mut first = String::from_str("----- Start Request [");
        first.append(id);
        first.append("]");
        lines.push(first);
        let ua = join2(join2(debug_text("user-agent"), ": "), r.user_agent.as_str());
        lines.push(ua);
        let peer = match &r.peer_addr {
            Some(p) => debug_text(p.as_str()),
            None => debug_text("-"),
        };
        let from = join2(join2(debug_text("from"), ": "), peer.as_str());
        lines.push(from);
        if r.has_authorization {
            lines.push(join2(debug_text("authorization"), ": \"****************************\""));
        }
        let path = join2(join2(join2(String::from_str("\"path\": "), r.method.as_str()), " "), debug_text(r.path.as_str()).as_str());
        lines.push(path);
        if r.query.unicode_len() > 0 {
            lines.push(join2(String::from_str("\"query\": "), debug_text(r.query.as_str()).as_str()));
        }
        assert(lines_view(lines@) =~= start_lines(id@, *r));
        lines
    }

    /// Whether the request body is logged.
    pub fn logs_body(body_len: usize, method: &str) -> (b: bool)
        ensures
            b == logs_body(body_len as nat, method@),
    {
        body_len > 0 && !crate::text::str_eq(method, "GET") && !crate::text::str_eq(method, "HEAD")
    }

    /// Line logging a request body, given its JSON text.
    pub fn body_line(json: &str) -> (r: String)
        ensures
            r@ == "\"body\": "@ + json@,
    {
        join2(String::from_str("\"body\": "), json)
    }

    /// Line logged for a request body: present when the body is logged
    /// (see [`logs_body`]) and parses as JSON, giving its compact JSON text.
    /// A logged body that is not JSON gives none.
    pub fn body_line_of(body: &[u8], method: &str) -> (r: Option<String>)
        ensures
            match r {
                Some(l) => logs_body(body@.len(), method@)
                    && (compact_json_text(body@) matches Some(t) && l@ == "\"body\": "@ + t),
                None => !logs_body(body@.len(), method@) || compact_json_text(body@) is None,
            },
    {
        if !LoggingMiddleware::logs_body(body.len(), method) {
            return None;
        }
        match body_json_text(body) {
            Some(t) => Some(LoggingMiddleware::body_line(t.as_str())),
            None => None,
        }
    }

    /// Line logged when the request with the given id has been answered,
    /// `elapsed_ms` milliseconds after it started.
    pub fn end_line(id: &str, elapsed_ms: i64) -> (r: String)
        ensures
            r@ == "------- End Request ["@ + id@ + "] in `"@ + decimal_text(elapsed_ms as int) + "ms`"@,
    {
        let mut s = String::from_str("------- End Request [");
        s.append(id);
        s.append("] in `");
        let ms = i64_to_text(elapsed_ms);
        s.append(ms.as_str());
        s.append("ms`");
        s
    }
}

/// Whole milliseconds between two instants given in nanoseconds, the
/// fraction dropped (rounded toward zero, as `TimeDelta::num_milliseconds`
/// does).
pub open spec fn whole_millis(d: int) -> int {
    if d >= 0 {
        d / 1_000_000
    } else {
        -((-d) / 1_000_000)
    }
}

/// Milliseconds elapsed from `start_ns` to `end_ns` (nanoseconds since the
/// epoch), rounded toward zero.
pub fn elapsed_ms(start_ns: i64, end_ns: i64) -> (r: i64)
    requires
        i64::MIN < end_ns - start_ns <= i64::MAX,
    ensures
        r == whole_millis(end_ns - start_ns),
{
    let d: i64 = end_ns - start_ns;
    if d >= 0 {
        d / 1_000_000
    } else {
        let m: i64 = -d;
        -(m / 1_000_000)
    }
}

} // verus!
