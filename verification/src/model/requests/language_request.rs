//! Query parameter selecting the response language.

use vstd::prelude::*;

verus! {

/// `?language=..`; absent means `vn`.
#[derive(Clone, Debug)]
pub struct LanguageRequest {
    pub value: String,
}

/// Language used when the request names none.
pub fn default_language() -> (r: String)
    ensures
        r@ == "vn"@,
{
    String::from_str("vn")
}

} // verus!
