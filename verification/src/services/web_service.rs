//! Settings and error handling of the HTTP server.

use vstd::prelude::*;

verus! {

/// Why a JSON request body was refused.
#[derive(Clone, Copy, PartialEq, Eq, Structural, Debug)]
pub enum JsonPayloadFailure {
    /// The request is not `application/json`.
    ContentType,
    /// The body is well-formed JSON of the wrong shape.
    DataMismatch,
    /// Anything else (syntax, size, I/O).
    Other,
}

/// Status answered for a refused JSON body: 415 for a wrong content type,
/// 422 for JSON of the wrong shape, 400 otherwise.
pub fn json_error_status(f: JsonPayloadFailure) -> (s: u16)
    ensures
        s == match f {
            JsonPayloadFailure::ContentType => 415u16,
            JsonPayloadFailure::DataMismatch => 422u16,
            JsonPayloadFailure::Other => 400u16,
        },
{
    match f {
        JsonPayloadFailure::ContentType => 415,
        JsonPayloadFailure::DataMismatch => 422,
        JsonPayloadFailure::Other => 400,
    }
}

/// Largest JSON body accepted, in bytes.
pub fn json_limit() -> (n: usize)
    ensures
        n == 4096,
{
    4096
}

/// How long browsers may cache CORS preflight answers, in seconds.
pub fn cors_max_age() -> (n: usize)
    ensures
        n == 3600,
{
    3600
}

/// Request headers CORS allows.
pub fn cors_allowed_headers() -> (r: Vec<String>)
    ensures
        r@.map_values(|h: String| h@) == seq!["authorization"@, "content-type"@, "accept"@],
{
    let mut v: Vec<String> = Vec::new();
    v.push(String::from_str("authorization"));
    v.push(String::from_str("content-type"));
    v.push(String::from_str("accept"));
    assert(v@.map_values(|h: String| h@) =~= seq!["authorization"@, "content-type"@, "accept"@]);
    v
}

} // verus!
