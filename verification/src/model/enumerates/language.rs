//! Language column stored as the variant name in UTF-8 text.

use vstd::prelude::*;
use vstd::utf8::{decode_utf8, encode_utf8, encode_utf8_decode_utf8, encode_utf8_valid_utf8, valid_utf8};
use crate::text::str_eq;

verus! {

/// A supported language.
#[derive(Clone, Copy, PartialEq, Eq, Structural, Debug)]
pub enum Language {
    En,
    Ru,
    De,
}

/// The name of a language (its `Display` text).
pub open spec fn language_name(l: Language) -> Seq<char> {
    match l {
        Language::En => "En"@,
        Language::Ru => "Ru"@,
        Language::De => "De"@,
    }
}

/// The language with the given name, if any (`FromStr`).
pub open spec fn language_named(s: Seq<char>) -> Option<Language> {
    if s == "En"@ {
        Some(Language::En)
    } else if s == "Ru"@ {
        Some(Language::Ru)
    } else if s == "De"@ {
        Some(Language::De)
    } else {
        None
    }
}

/// What reading a stored value needs: text that is not UTF-8, or the name of
/// a language (any other text has no language to give).
pub open spec fn readable(b: Seq<u8>) -> bool {
    valid_utf8(b) ==> language_named(decode_utf8(b)) is Some
}

/// Error message for unreadable values.
pub open spec fn unrecognized_message() -> Seq<char> {
    "Unrecognized enumerates variant"@
}

/// Outcome of reading a stored value.
pub open spec fn read_outcome(b: Seq<u8>, r: Result<Language, String>) -> bool {
    if valid_utf8(b) {
        r == Ok::<Language, String>(language_named(decode_utf8(b))->0)
    } else {
        r matches Err(m) && m@ == unrecognized_message()
    }
}

/// Decodes UTF-8 text (`std::str::from_utf8`, with the error dropped).
/// Stated: the decoding succeeds exactly on well-formed UTF-8 and then
/// yields the encoded characters.
#[verifier::external_body]
pub(crate) fn utf8_text(b: &[u8]) -> (r: Option<&str>)
    ensures
        r is Some <==> valid_utf8(b@),
        r matches Some(s) ==> s@ == decode_utf8(b@),
{
    std::str::from_utf8(b).ok()
}

impl Language {
    /// The name of the language.
    pub fn name(&self) -> (r: &'static str)
        ensures
            r@ == language_name(*self),
    {
        match self {
            Language::En => "En",
            Language::Ru => "Ru",
            Language::De => "De",
        }
    }

    /// Parses a language name (case sensitive).
    pub fn from_str(s: &str) -> (r: Option<Language>)
        ensures
            r == language_named(s@),
    {
        if str_eq(s, "En") {
            Some(Language::En)
        } else if str_eq(s, "Ru") {
            Some(Language::Ru)
        } else if str_eq(s, "De") {
            Some(Language::De)
        } else {
            None
        }
    }

    /// The stored value: the UTF-8 bytes of the name (`ToSql`).
    pub fn to_sql(&self) -> (r: Vec<u8>)
        ensures
            r@ == encode_utf8(language_name(*self)),
    {
        self.name().as_bytes_vec()
    }

    /// Reads a stored value (`FromSql`): bytes that are not UTF-8 are an
    /// error.
    pub fn from_sql(bytes: &[u8]) -> (r: Result<Language, String>)
        requires
            readable(bytes@),
        ensures
            read_outcome(bytes@, r),
    {
        match utf8_text(bytes) {
            Some(s) => match Language::from_str(s) {
                Some(l) => Ok(l),
                None => Err(String::from_str("Unrecognized enumerates variant")),
            },
            None => Err(String::from_str("Unrecognized enumerates variant")),
        }
    }

    /// Reads a possibly absent stored value; absence is an error.
    pub fn from_nullable_sql(bytes: Option<&[u8]>) -> (r: Result<Language, String>)
        requires
            bytes matches Some(b) ==> readable(b@),
        ensures
            match bytes {
                None => r matches Err(m) && m@ == unrecognized_message(),
                Some(b) => read_outcome(b@, r),
            },
    {
        match bytes {
            None => Err(String::from_str("Unrecognized enumerates variant")),
            Some(b) => Language::from_sql(b),
        }
    }
}

/// Reading back what a language is stored as gives the same language.
pub proof fn lemma_language_round_trip(l: Language)
    ensures
        readable(encode_utf8(language_name(l))),
        read_outcome(encode_utf8(language_name(l)), Ok(l)),
{
    encode_utf8_valid_utf8(language_name(l));
    encode_utf8_decode_utf8(language_name(l));
    reveal_strlit("En");
    reveal_strlit("Ru");
    reveal_strlit("De");
    assert("En"@ != "Ru"@ && "En"@ != "De"@ && "Ru"@ != "De"@) by {
        assert("En"@[0] != "Ru"@[0]);
        assert("En"@[0] != "De"@[0]);
        assert("Ru"@[0] != "De"@[0]);
    }
}

} // verus!
