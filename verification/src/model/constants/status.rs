//! Service level status codes with their canonical reason phrases.

use vstd::prelude::*;
use crate::text::{decimal_text, i64_to_text};

verus! {

/// A service status code. Codes are plain `i16` values; four of them have a
/// canonical reason phrase.
#[derive(Clone, Copy, PartialEq, Eq, Structural, PartialOrd, Ord, Hash, Debug)]
pub struct Status(i16);

/// The reason phrase of a known code.
pub open spec fn reason_text(code: i16) -> Option<Seq<char>> {
    if code == 0 {
        Some("Success"@)
    } else if code == -1 {
        Some("Fail"@)
    } else if code == 102 {
        Some("Processing"@)
    } else if code == 900 {
        Some("Unknown"@)
    } else {
        None
    }
}

/// The text a status displays as: its code, a space and its reason phrase,
/// or `<unknown status code>` for a code without one.
pub open spec fn status_text(code: i16) -> Seq<char> {
    decimal_text(code as int) + " "@ + match reason_text(code) {
        Some(t) => t,
        None => "<unknown status code>"@,
    }
}

impl View for Status {
    type V = i16;

    closed spec fn view(&self) -> i16 {
        self.0
    }
}

impl Status {
    /// `0 Success`.
    pub fn success() -> (s: Status)
        ensures
            s@ == 0,
    {
        Status(0)
    }

    /// `-1 Fail`.
    pub fn fail() -> (s: Status)
        ensures
            s@ == -1,
    {
        Status(-1)
    }

    /// `102 Processing`.
    pub fn processing() -> (s: Status)
        ensures
            s@ == 102,
    {
        Status(102)
    }

    /// `900 Unknown`.
    pub fn unknown() -> (s: Status)
        ensures
            s@ == 900,
    {
        Status(900)
    }

    /// Wraps any code; this never fails.
    pub fn from_i16(src: i16) -> (r: Result<Status, ()>)
        ensures
            r matches Ok(s) && s@ == src,
    {
        Ok(Status(src))
    }

    /// Same as [`Status::from_i16`].
    pub fn try_from(t: i16) -> (r: Result<Status, ()>)
        ensures
            r matches Ok(s) && s@ == t,
    {
        Status::from_i16(t)
    }

    /// The numeric code.
    pub fn as_i16(&self) -> (c: i16)
        ensures
            c == self@,
    {
        self.0
    }

    /// The reason phrase, for the four known codes.
    pub fn canonical_reason(&self) -> (r: Option<&'static str>)
        ensures
            r is Some <==> reason_text(self@) is Some,
            r matches Some(t) ==> t@ == reason_text(self@)->0,
    {
        let code = self.0;
        if code == 0 {
            Some("Success")
        } else if code == -1 {
            Some("Fail")
        } else if code == 102 {
            Some("Processing")
        } else if code == 900 {
            Some("Unknown")
        } else {
            None
        }
    }

    /// Whether the status carries the given code (`Status == i16`).
    pub fn eq_code(&self, other: &i16) -> (b: bool)
        ensures
            b == (self@ == *other),
    {
        self.0 == *other
    }

    /// Display text: `"<code> <reason>"`.
    pub fn to_string(&self) -> (r: String)
        ensures
            r@ == status_text(self@),
    {
        let mut s = i64_to_text(self.0 as i64);
        s.append(" ");
        match self.canonical_reason() {
            Some(t) => s.append(t),
            None => s.append("<unknown status code>"),
        }
        s
    }
}

} // verus!
