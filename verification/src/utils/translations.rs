//! Languages the service answers in.

use vstd::prelude::*;
use crate::text::str_eq;

verus! {

/// A translation language: Vietnamese (the fallback) or English.
#[derive(Clone, Copy, PartialEq, Eq, Structural, Debug)]
pub enum Lang {
    Vn,
    En,
}

/// The language with the given identifier, if translations exist for it.
pub open spec fn lang_of_id(id: Seq<char>) -> Option<Lang> {
    if id == "vn"@ {
        Some(Lang::Vn)
    } else if id == "en"@ {
        Some(Lang::En)
    } else {
        None
    }
}

/// The language a request asks for: its identifier's language, or the
/// fallback.
pub open spec fn detected_lang(id: Seq<char>) -> Lang {
    match lang_of_id(id) {
        Some(l) => l,
        None => Lang::Vn,
    }
}

impl Lang {
    /// Looks a language up by identifier.
    pub fn from_language_id(id: &str) -> (r: Option<Lang>)
        ensures
            r == lang_of_id(id@),
    {
        if str_eq(id, "vn") {
            Some(Lang::Vn)
        } else if str_eq(id, "en") {
            Some(Lang::En)
        } else {
            None
        }
    }

    /// The fallback language.
    pub fn fallback() -> (r: Lang)
        ensures
            r == Lang::Vn,
    {
        Lang::Vn
    }

    /// The identifier of the language.
    pub fn language_id(&self) -> (r: &'static str)
        ensures
            lang_of_id(r@) == Some(*self),
    {
        proof {
            reveal_strlit("vn");
            reveal_strlit("en");
        }
        match self {
            Lang::Vn => "vn",
            Lang::En => {
                assert("en"@ != "vn"@) by {
                    assert("en"@[0] != "vn"@[0]);
                }
                "en"
            },
        }
    }

    /// The language a request asks for, falling back to Vietnamese.
    pub fn detect(id: &str) -> (r: Lang)
        ensures
            r == detected_lang(id@),
    {
        match Lang::from_language_id(id) {
            Some(l) => l,
            None => Lang::fallback(),
        }
    }
}

} // verus!
