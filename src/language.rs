//! The languages in which a conformity report can be rendered.

use vstd::prelude::*;

verus! {

/// A report language.
#[derive(Debug, Clone, Copy, PartialEq, Eq, Structural)]
pub enum Language {
    PtBr,
    En,
    Es,
}

impl Language {
    /// The code the service knows the language by.
    pub open spec fn code(self) -> Seq<char> {
        match self {
            Language::PtBr => "pt-br"@,
            Language::En => "en"@,
            Language::Es => "es"@,
        }
    }

    /// The language's name, in the language itself.
    pub open spec fn name(self) -> Seq<char> {
        match self {
            Language::PtBr => "Português (BR)"@,
            Language::En => "English"@,
            Language::Es => "Español"@,
        }
    }

    /// The language whose code is `code`, if any.
    pub open spec fn of_code(code: Seq<char>) -> Option<Language> {
        if code == "pt-br"@ {
            Some(Language::PtBr)
        } else if code == "en"@ {
            Some(Language::En)
        } else if code == "es"@ {
            Some(Language::Es)
        } else {
            None
        }
    }

    /// Whether `code` is one of the three accepted codes.
    pub open spec fn is_code(code: Seq<char>) -> bool {
        code == "pt-br"@ || code == "en"@ || code == "es"@
    }

    /// The code the service knows the language by.
    pub fn as_str(&self) -> (r: &'static str)
        ensures
            r@ == self.code(),
    {
        match self {
            Language::PtBr => "pt-br",
            Language::En => "en",
            Language::Es => "es",
        }
    }

    /// The language's name, in the language itself.
    pub fn display(&self) -> (r: &'static str)
        ensures
            r@ == self.name(),
    {
        match self {
            Language::PtBr => "Português (BR)",
            Language::En => "English",
            Language::Es => "Español",
        }
    }

    /// The language whose code is `code`; `None` for any other text.
    pub fn from_code(code: &str) -> (r: Option<Language>)
        ensures
            r == Language::of_code(code@),
            r is Some <==> Language::is_code(code@),
            r matches Some(l) ==> l.code() == code@,
    {
        let c = String::from_str(code);
        if c == String::from_str("pt-br") {
            Some(Language::PtBr)
        } else if c == String::from_str("en") {
            Some(Language::En)
        } else if c == String::from_str("es") {
            Some(Language::Es)
        } else {
            None
        }
    }
}

impl Default for Language {
    fn default() -> (r: Language)
        ensures
            r == Language::PtBr,
    {
        Language::PtBr
    }
}

} // verus!
