use crate::text::str_eq;
use vstd::prelude::*;

verus! {

/// Languages the application can be set to.
#[derive(Debug, Clone, Copy, PartialEq, Eq, Structural)]
pub enum Language {
    UNSET,
    ENGLISH,
    ITALIAN,
    SPANISH,
    FRENCH,
}

/// The display name of a language.
pub open spec fn language_value(l: Language) -> Seq<char> {
    match l {
        Language::UNSET => "Unset"@,
        Language::ENGLISH => "English"@,
        Language::ITALIAN => "Italian"@,
        Language::SPANISH => "Spanish"@,
        Language::FRENCH => "French"@,
    }
}

/// The two-letter code of a language; empty when unset.
pub open spec fn language_code(l: Language) -> Seq<char> {
    match l {
        Language::UNSET => ""@,
        Language::ENGLISH => "en"@,
        Language::ITALIAN => "it"@,
        Language::SPANISH => "es"@,
        Language::FRENCH => "fr"@,
    }
}

/// The language a text names: its code in lower or upper case, or its
/// name capitalized or in lower case ("unset" also in upper case).
pub open spec fn language_from_text(s: Seq<char>) -> Option<Language> {
    if s == "unset"@ || s == "UNSET"@ || s == "Unset"@ {
        Some(Language::UNSET)
    } else if s == "en"@ || s == "EN"@ || s == "English"@ || s == "english"@ {
        Some(Language::ENGLISH)
    } else if s == "it"@ || s == "IT"@ || s == "Italian"@ || s == "italian"@ {
        Some(Language::ITALIAN)
    } else if s == "es"@ || s == "ES"@ || s == "Spanish"@ || s == "spanish"@ {
        Some(Language::SPANISH)
    } else if s == "fr"@ || s == "FR"@ || s == "French"@ || s == "french"@ {
        Some(Language::FRENCH)
    } else {
        None
    }
}

impl Language {
    /// The display name of the language.
    pub fn value(&self) -> (r: &'static str)
        ensures
            r@ == language_value(*self),
    {
        match self {
            Language::UNSET => "Unset",
            Language::ENGLISH => "English",
            Language::ITALIAN => "Italian",
            Language::SPANISH => "Spanish",
            Language::FRENCH => "French",
        }
    }

    /// The two-letter code of the language; empty when unset.
    pub fn code(&self) -> (r: &'static str)
        ensures
            r@ == language_code(*self),
    {
        match self {
            Language::UNSET => "",
            Language::ENGLISH => "en",
            Language::ITALIAN => "it",
            Language::SPANISH => "es",
            Language::FRENCH => "fr",
        }
    }

    /// The language that `s` names, if any.
    pub fn from_str(s: &str) -> (r: Option<Language>)
        ensures
            r == language_from_text(s@),
    {
        if str_eq(s, "unset") || str_eq(s, "UNSET") || str_eq(s, "Unset") {
            Some(Language::UNSET)
        } else if str_eq(s, "en") || str_eq(s, "EN") || str_eq(s, "English") || str_eq(
            s,
            "english",
        ) {
            Some(Language::ENGLISH)
        } else if str_eq(s, "it") || str_eq(s, "IT") || str_eq(s, "Italian") || str_eq(
            s,
            "italian",
        ) {
            Some(Language::ITALIAN)
        } else if str_eq(s, "es") || str_eq(s, "ES") || str_eq(s, "Spanish") || str_eq(
            s,
            "spanish",
        ) {
            Some(Language::SPANISH)
        } else if str_eq(s, "fr") || str_eq(s, "FR") || str_eq(s, "French") || str_eq(
            s,
            "french",
        ) {
            Some(Language::FRENCH)
        } else {
            None
        }
    }
}

/// Reading a language's name gives the language back; reading its code
/// gives it back too, except for the unset language, whose code is empty
/// and names no language.
pub proof fn lemma_language_round_trip(l: Language)
    ensures
        language_from_text(language_value(l)) == Some(l),
        l != Language::UNSET ==> language_from_text(language_code(l)) == Some(l),
        language_from_text(language_code(Language::UNSET)) is None,
{
    reveal_strlit("unset");
    reveal_strlit("UNSET");
    reveal_strlit("Unset");
    reveal_strlit("en");
    reveal_strlit("EN");
    reveal_strlit("English");
    reveal_strlit("english");
    reveal_strlit("it");
    reveal_strlit("IT");
    reveal_strlit("Italian");
    reveal_strlit("italian");
    reveal_strlit("es");
    reveal_strlit("ES");
    reveal_strlit("Spanish");
    reveal_strlit("spanish");
    reveal_strlit("fr");
    reveal_strlit("FR");
    reveal_strlit("French");
    reveal_strlit("french");
    reveal_strlit("");
    assert("Unset"@[0] != "unset"@[0]);
    assert("Unset"@[1] != "UNSET"@[1]);
    assert(""@.len() == 0);
    match l {
        Language::UNSET => {},
        Language::ENGLISH => {
            assert("English"@.len() != "unset"@.len());
            assert("en"@.len() != "unset"@.len());
        },
        Language::ITALIAN => {
            assert("Italian"@.len() != "unset"@.len());
            assert("Italian"@[0] != "English"@[0]);
            assert("Italian"@.len() != "english"@.len() || "Italian"@[0] != "english"@[0]);
            assert("it"@[0] != "en"@[0]);
            assert("it"@.len() != "unset"@.len());
        },
        Language::SPANISH => {
            assert("Spanish"@.len() != "unset"@.len());
            assert("Spanish"@[0] != "English"@[0]);
            assert("Spanish"@[0] != "english"@[0]);
            assert("Spanish"@[0] != "Italian"@[0]);
            assert("Spanish"@[0] != "italian"@[0]);
            assert("es"@[1] != "en"@[1]);
            assert("es"@[0] != "it"@[0]);
            assert("es"@.len() != "unset"@.len());
        },
        Language::FRENCH => {
            assert("French"@.len() != "unset"@.len());
            assert("French"@.len() != "English"@.len());
            assert("French"@.len() != "Italian"@.len());
            assert("French"@.len() != "Spanish"@.len());
            assert("fr"@[0] != "en"@[0]);
            assert("fr"@[0] != "it"@[0]);
            assert("fr"@[0] != "es"@[0]);
            assert("fr"@.len() != "unset"@.len());
        },
    }
}

} // verus!
