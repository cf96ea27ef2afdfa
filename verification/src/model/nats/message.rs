//! Messages exchanged over NATS, with their JSON payloads.

use vstd::prelude::*;
use crate::text::str_eq;

verus! {

/// A JSON document. Numbers keep their source text; object members keep
/// their order, and keys are unique.
pub enum JsonValue {
    Null,
    Bool(bool),
    Number(String),
    Str(String),
    Array(Vec<JsonValue>),
    Object(Vec<(String, JsonValue)>),
}

/// The member of an object with the given key, searching from position `i`.
pub open spec fn member_from(entries: Seq<(String, JsonValue)>, key: Seq<char>, i: int) -> Option<JsonValue>
    decreases entries.len() - i,
{
    if i < 0 || i >= entries.len() {
        None
    } else if entries[i].0@ == key {
        Some(entries[i].1)
    } else {
        member_from(entries, key, i + 1)
    }
}

/// The text stored under `key` in a document: present when the document is
/// an object whose member `key` is a string (`doc[key].as_str()`).
pub open spec fn text_member(doc: JsonValue, key: Seq<char>) -> Option<Seq<char>> {
    match doc {
        JsonValue::Object(entries) => match member_from(entries@, key, 0) {
            Some(JsonValue::Str(s)) => Some(s@),
            _ => None,
        },
        _ => None,
    }
}

impl JsonValue {
    /// The text stored under `key` (`self[key].as_str()`).
    pub fn text_member(&self, key: &str) -> (r: Option<String>)
        ensures
            match r {
                Some(s) => text_member(*self, key@) == Some(s@),
                None => text_member(*self, key@) is None,
            },
    {
        match self {
            JsonValue::Object(entries) => {
                let mut i: usize = 0;
                while i < entries.len()
                    invariant
                        i <= entries.len(),
                        *self matches JsonValue::Object(e) && e@ == entries@,
                        member_from(entries@, key@, 0) == member_from(entries@, key@, i as int),
                    decreases entries.len() - i,
                {
                    if str_eq(entries[i].0.as_str(), key) {
                        assert(member_from(entries@, key@, i as int) == Some(entries@[i as int].1));
                        let v = &entries[i].1;
                        match v {
                            JsonValue::Str(t) => {
                                let c = t.clone();
                                return Some(c);
                            },
                            _ => {
                                return None;
                            },
                        }
                    }
                    i = i + 1;
                }
                None
            },
            _ => None,
        }
    }
}

/// A request received over NATS.
pub struct NatsRequest {
    pub id: String,
    pub from: String,
    pub data: JsonValue,
    pub send_time: i64,
}

/// A reply sent over NATS.
pub struct NatsResponse {
    pub request: Option<NatsRequest>,
    pub id: String,
    pub from: String,
    pub data: JsonValue,
    pub send_time: i64,
    pub status: i16,
    pub status_des: String,
}

} // verus!
