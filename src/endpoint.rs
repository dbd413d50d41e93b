//! What the coordinator needs to know of a resource type, and the
//! languages resources come in.

use vstd::prelude::*;

verus! {

/// The request-relevant facts of one resource type.
#[derive(Clone, Copy, Debug, PartialEq, Eq)]
pub struct Schema {
    /// Path below the host, without a leading slash.
    pub path: &'static str,
    /// Value of the schema-version header.
    pub version: &'static str,
    /// Whether requests need the client's key.
    pub authenticated: bool,
    /// Whether requests carry a `lang` query parameter.
    pub locale: bool,
    /// Whether the bulk endpoint answers `ids=all`.
    pub supports_all: bool,
}

impl Schema {
    /// The language a request for this resource is made and cached in: the
    /// client's language for a localized resource, none otherwise.
    pub fn language_for(&self, lang: Language) -> (r: Option<Language>)
        ensures
            r == (if self.locale {
                Some(lang)
            } else {
                None
            }),
    {
        if self.locale {
            Some(lang)
        } else {
            None
        }
    }
}

/// The languages the service localizes resources into.
#[derive(Clone, Copy, Debug, PartialEq, Eq, Hash)]
pub enum Language {
    En,
    Es,
    De,
    Fr,
    Zh,
}

impl Language {
    /// The two-letter code of the language.
    pub open spec fn code(self) -> Seq<char> {
        match self {
            Language::En => "en"@,
            Language::Es => "es"@,
            Language::De => "de"@,
            Language::Fr => "fr"@,
            Language::Zh => "zh"@,
        }
    }

    /// The two-letter code that the `lang` query parameter carries.
    pub fn as_str(&self) -> (r: &'static str)
        ensures
            r@ == self.code(),
    {
        match self {
            Language::En => "en",
            Language::Es => "es",
            Language::De => "de",
            Language::Fr => "fr",
            Language::Zh => "zh",
        }
    }
}

} // verus!
