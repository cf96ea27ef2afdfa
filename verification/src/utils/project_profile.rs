//! The deployment profile the service runs under.

use vstd::prelude::*;
use crate::text::{eq_ignore_ascii_case, lower_seq};

verus! {

/// Deployment profile; parsed from its name without regard to ASCII case.
#[derive(Clone, Copy, PartialEq, Eq, Structural, Debug)]
#[allow(non_camel_case_types, clippy::upper_case_acronyms)]
pub enum Profile {
    DEVELOPMENT,
    TESTING,
    STAGING,
    PRODUCTION,
}

/// The name a profile displays as.
pub open spec fn profile_name(p: Profile) -> Seq<char> {
    match p {
        Profile::DEVELOPMENT => "DEVELOPMENT"@,
        Profile::TESTING => "TESTING"@,
        Profile::STAGING => "STAGING"@,
        Profile::PRODUCTION => "PRODUCTION"@,
    }
}

/// The profile whose name equals `s` up to ASCII case, if any.
pub open spec fn parse_profile(s: Seq<char>) -> Option<Profile> {
    if lower_seq(s) == lower_seq("DEVELOPMENT"@) {
        Some(Profile::DEVELOPMENT)
    } else if lower_seq(s) == lower_seq("TESTING"@) {
        Some(Profile::TESTING)
    } else if lower_seq(s) == lower_seq("STAGING"@) {
        Some(Profile::STAGING)
    } else if lower_seq(s) == lower_seq("PRODUCTION"@) {
        Some(Profile::PRODUCTION)
    } else {
        None
    }
}

/// The profile selected by the value of the `PROFILE` variable: the parsed
/// profile, or `DEVELOPMENT` when the variable is unset or names none.
pub open spec fn profile_of_env(value: Option<Seq<char>>) -> Profile {
    match value {
        Some(v) => match parse_profile(v) {
            Some(p) => p,
            None => Profile::DEVELOPMENT,
        },
        None => Profile::DEVELOPMENT,
    }
}

impl Profile {
    /// The profile's name (`Display`).
    pub fn as_str(&self) -> (r: &'static str)
        ensures
            r@ == profile_name(*self),
    {
        match self {
            Profile::DEVELOPMENT => "DEVELOPMENT",
            Profile::TESTING => "TESTING",
            Profile::STAGING => "STAGING",
            Profile::PRODUCTION => "PRODUCTION",
        }
    }

    /// The profile's name as an owned string (`to_string`).
    pub fn to_string(&self) -> (r: String)
        ensures
            r@ == profile_name(*self),
    {
        String::from_str(self.as_str())
    }

    /// Parses a profile name, ignoring ASCII case (`FromStr`).
    pub fn from_str(s: &str) -> (r: Option<Profile>)
        ensures
            r == parse_profile(s@),
    {
        if eq_ignore_ascii_case(s, "DEVELOPMENT") {
            Some(Profile::DEVELOPMENT)
        } else if eq_ignore_ascii_case(s, "TESTING") {
            Some(Profile::TESTING)
        } else if eq_ignore_ascii_case(s, "STAGING") {
            Some(Profile::STAGING)
        } else if eq_ignore_ascii_case(s, "PRODUCTION") {
            Some(Profile::PRODUCTION)
        } else {
            None
        }
    }
}

/// The active profile, given the value of the `PROFILE` environment
/// variable (`None` when it is unset or not unicode).
pub fn get_profile(env_value: Option<&str>) -> (p: Profile)
    ensures
        p == profile_of_env(match env_value {
            Some(v) => Some(v@),
            None => None,
        }),
{
    match env_value {
        Some(v) => match Profile::from_str(v) {
            Some(p) => p,
            None => Profile::DEVELOPMENT,
        },
        None => Profile::DEVELOPMENT,
    }
}

/// Every profile's own name parses back to it, in any ASCII case.
pub proof fn lemma_profile_name_round_trip(p: Profile, s: Seq<char>)
    requires
        lower_seq(s) == lower_seq(profile_name(p)),
    ensures
        parse_profile(s) == Some(p),
{
    reveal_strlit("DEVELOPMENT");
    reveal_strlit("TESTING");
    reveal_strlit("STAGING");
    reveal_strlit("PRODUCTION");
    let d = lower_seq("DEVELOPMENT"@);
    let t = lower_seq("TESTING"@);
    let st = lower_seq("STAGING"@);
    let pr = lower_seq("PRODUCTION"@);
    assert(d.len() == 11 && t.len() == 7 && st.len() == 7 && pr.len() == 10);
    assert(t[0] == 't' && st[0] == 's');
}

} // verus!
