use crate::domain::language::{language_from_text, lemma_language_round_trip, Language};
use crate::text::{find_char, index_of, str_chars};
use vstd::string::StrSliceExecFns;
use vstd::prelude::*;

verus! {

/// The language the application currently uses. There is one language
/// per manager and the manager cannot be cloned: every part of the
/// application goes through the same manager, so a language set is what
/// every later read sees.
#[derive(Debug)]
pub struct LanguageManager {
    current_language: Language,
}

impl View for LanguageManager {
    type V = Language;

    closed spec fn view(&self) -> Language {
        self.current_language
    }
}

/// The language that a text selects: the one it names, or none set.
pub open spec fn language_selected_by(s: Seq<char>) -> Language {
    match language_from_text(s) {
        Some(l) => l,
        None => Language::UNSET,
    }
}

/// The language part of a locale such as `it-IT`: the text before the
/// first `-`, or all of it when there is none.
pub open spec fn locale_language_part(locale: Seq<char>) -> Seq<char> {
    let p = index_of(locale, '-');
    if p < 0 {
        locale
    } else {
        locale.subrange(0, p)
    }
}

/// The language of the system's locale: the one its language part names,
/// or none when it names none or there is no locale.
pub open spec fn language_of_locale(locale: Option<Seq<char>>) -> Language {
    match locale {
        Some(l) => language_selected_by(locale_language_part(l)),
        None => language_selected_by("unset"@),
    }
}

/// The language of the system's locale, as the application starts with it.
pub fn language_from_locale(locale: Option<&str>) -> (r: Language)
    ensures
        r == language_of_locale(
            match locale {
                Some(l) => Some(l@),
                None => None,
            },
        ),
{
    let code = match locale {
        Some(l) => {
            let chars = str_chars(l);
            let end = match find_char(&chars, 0, chars.len(), '-') {
                Some(p) => p,
                None => chars.len(),
            };
            assert(chars@.subrange(0, chars.len() as int) =~= l@);
            assert(chars@.subrange(0, end as int) =~= locale_language_part(l@));
            l.substring_char(0, end)
        },
        None => "unset",
    };
    match Language::from_str(code) {
        Some(language) => language,
        None => Language::UNSET,
    }
}

impl LanguageManager {
    pub fn new(current_language: Language) -> (r: Self)
        ensures
            r@ == current_language,
    {
        Self { current_language }
    }

    pub fn get_current_language(&self) -> (r: Language)
        ensures
            r == self@,
    {
        self.current_language
    }

    /// Sets the language; reading it afterwards gives `new_language` back.
    pub fn set_current_language(&mut self, new_language: Language)
        ensures
            final(self)@ == new_language,
    {
        proof {
            lemma_language_round_trip(new_language);
        }
        self.set_current_language_as_str(new_language.value());
    }

    /// Sets the language that `new_language` names, or none when it names none.
    pub fn set_current_language_as_str(&mut self, new_language: &str)
        ensures
            final(self)@ == language_selected_by(new_language@),
    {
        let language = match Language::from_str(new_language) {
            Some(l) => l,
            None => Language::UNSET,
        };
        self.current_language = language;
    }
}

} // verus!
