//! Language column stored as the codes `en`, `ru` and `de`.

use vstd::prelude::*;

verus! {

/// Marker for the `Language` column type.
#[derive(Clone, Copy, Default, Debug)]
pub struct LanguageType;

/// A supported language.
#[derive(Clone, Copy, PartialEq, Eq, Structural, Debug)]
pub enum Language {
    En,
    Ru,
    De,
}

/// The code a language is stored as.
pub open spec fn language_code(l: Language) -> Seq<u8> {
    match l {
        Language::En => seq![101u8, 110u8],
        Language::Ru => seq![114u8, 117u8],
        Language::De => seq![100u8, 101u8],
    }
}

/// The language a stored code denotes, if any.
pub open spec fn language_of_code(b: Seq<u8>) -> Option<Language> {
    if b == language_code(Language::En) {
        Some(Language::En)
    } else if b == language_code(Language::Ru) {
        Some(Language::Ru)
    } else if b == language_code(Language::De) {
        Some(Language::De)
    } else {
        None
    }
}

/// Error message for an absent or unknown code.
pub open spec fn unrecognized_message() -> Seq<char> {
    "Unrecognized enumerate variant"@
}

fn bytes_eq(a: &[u8], b0: u8, b1: u8) -> (r: bool)
    ensures
        r == (a@ == seq![b0, b1]),
{
    if a.len() != 2 {
        return false;
    }
    let r = a[0] == b0 && a[1] == b1;
    if r {
        assert(a@ =~= seq![b0, b1]);
    }
    r
}

impl Language {
    /// The stored code (`ToSql`).
    pub fn to_sql(&self) -> (r: Vec<u8>)
        ensures
            r@ == language_code(*self),
    {
        let mut v: Vec<u8> = Vec::new();
        match self {
            Language::En => {
                v.push(101u8);
                v.push(110u8);
            },
            Language::Ru => {
                v.push(114u8);
                v.push(117u8);
            },
            Language::De => {
                v.push(100u8);
                v.push(101u8);
            },
        }
        assert(v@ =~= language_code(*self));
        v
    }

    /// Reads a stored code (`FromSql`); an absent value or an unknown code is
    /// an error.
    pub fn from_sql(bytes: Option<&[u8]>) -> (r: Result<Language, String>)
        ensures
            match bytes {
                None => r matches Err(m) && m@ == unrecognized_message(),
                Some(b) => match language_of_code(b@) {
                    Some(l) => r == Ok::<Language, String>(l),
                    None => r matches Err(m) && m@ == unrecognized_message(),
                },
            },
    {
        match bytes {
            None => Err(String::from_str("Unrecognized enumerate variant")),
            Some(b) => {
                if bytes_eq(b, 101u8, 110u8) {
                    Ok(Language::En)
                } else if bytes_eq(b, 114u8, 117u8) {
                    Ok(Language::Ru)
                } else if bytes_eq(b, 100u8, 101u8) {
                    Ok(Language::De)
                } else {
                    Err(String::from_str("Unrecognized enumerate variant"))
                }
            },
        }
    }
}

/// Reading back what a language is stored as gives the same language.
pub proof fn lemma_language_code_round_trip(l: Language)
    ensures
        language_of_code(language_code(l)) == Some(l),
{
}

} // verus!
