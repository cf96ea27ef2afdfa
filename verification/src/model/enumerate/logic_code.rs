//! Logic result codes carried in response bodies.

use vstd::prelude::*;

verus! {

/// Result code of a handled request.
#[derive(Clone, Copy, PartialEq, Eq, Structural, Debug)]
#[allow(clippy::upper_case_acronyms)]
pub enum StatusCode {
    SUCCESS,
}

impl StatusCode {
    /// The numeric code (`Into<u16>`).
    pub fn into(self) -> (r: u16)
        ensures
            r == 0,
    {
        match self {
            StatusCode::SUCCESS => 0,
        }
    }
}

} // verus!
