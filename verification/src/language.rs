//! The closed set of interface languages, with the per-language name key
//! used to pick a localized string out of an entity's `names` mapping and
//! the preferred country used to rank featured cities.

use vstd::prelude::*;

verus! {

/// Languages a client may request. The enumeration is closed: every variant
/// maps to exactly one name key and one preferred country.
#[derive(Clone, Copy, Debug, PartialEq, Eq, Structural)]
pub enum Language {
    CS,
    DE,
    EN,
    PL,
    SK,
}

/// Key under which an entity's `names` mapping holds this language's name.
pub open spec fn spec_name_key(l: Language) -> Seq<char> {
    match l {
        Language::CS => "name.cs"@,
        Language::DE => "name.de"@,
        Language::EN => "name.en"@,
        Language::PL => "name.pl"@,
        Language::SK => "name.sk"@,
    }
}

/// Country whose cities are ranked first in the featured list for this
/// language. Used only for ranking, never as a data constraint.
pub open spec fn spec_preferred_country(l: Language) -> Seq<char> {
    match l {
        Language::CS => "CZ"@,
        Language::DE => "DE"@,
        Language::EN => "CZ"@,
        Language::PL => "PL"@,
        Language::SK => "SK"@,
    }
}

impl Language {
    /// The name key for this language, e.g. `"name.cs"` for `CS`.
    pub fn name_key(&self) -> (k: String)
        ensures
            k@ == spec_name_key(*self),
    {
        let s: &str = match self {
            Language::CS => "name.cs",
            Language::DE => "name.de",
            Language::EN => "name.en",
            Language::PL => "name.pl",
            Language::SK => "name.sk",
        };
        s.to_owned()
    }

    /// The preferred country code for this language, e.g. `"CZ"` for `EN`.
    pub fn preferred_country_iso(&self) -> (c: String)
        ensures
            c@ == spec_preferred_country(*self),
    {
        let s: &str = match self {
            Language::CS => "CZ",
            Language::DE => "DE",
            Language::EN => "CZ",
            Language::PL => "PL",
            Language::SK => "SK",
        };
        s.to_owned()
    }
}

} // verus!
