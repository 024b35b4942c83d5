use smart_actions::domain::language::Language;
use smart_actions::logic::language_manager::LanguageManager;

const ALL: [Language; 5] = [
    Language::UNSET,
    Language::ENGLISH,
    Language::ITALIAN,
    Language::SPANISH,
    Language::FRENCH,
];

#[test]
fn language_values_and_codes() {
    let expected = [
        ("Unset", ""),
        ("English", "en"),
        ("Italian", "it"),
        ("Spanish", "es"),
        ("French", "fr"),
    ];
    for (l, (value, code)) in ALL.iter().zip(expected.iter()) {
        assert_eq!(l.value(), *value);
        assert_eq!(l.code(), *code);
    }
}

#[test]
fn language_from_str_accepts_every_spelling() {
    for s in ["unset", "UNSET", "Unset"] {
        assert_eq!(Language::from_str(s), Some(Language::UNSET));
    }
    for s in ["en", "EN", "English", "english"] {
        assert_eq!(Language::from_str(s), Some(Language::ENGLISH));
    }
    for s in ["it", "IT", "Italian", "italian"] {
        assert_eq!(Language::from_str(s), Some(Language::ITALIAN));
    }
    for s in ["es", "ES", "Spanish", "spanish"] {
        assert_eq!(Language::from_str(s), Some(Language::SPANISH));
    }
    for s in ["fr", "FR", "French", "french"] {
        assert_eq!(Language::from_str(s), Some(Language::FRENCH));
    }
}

#[test]
fn language_from_str_rejects_other_text() {
    for s in ["", "En", "ENGLISH", "de", " en", "en ", "unSet", "fr-FR"] {
        assert_eq!(Language::from_str(s), None);
    }
}

#[test]
fn language_round_trip_through_value_and_code() {
    for l in ALL {
        assert_eq!(Language::from_str(l.value()), Some(l));
        if l != Language::UNSET {
            assert_eq!(Language::from_str(l.code()), Some(l));
        }
    }
    assert_eq!(Language::from_str(Language::UNSET.code()), None);
}

#[test]
fn language_manager_gives_back_what_was_set() {
    let mut m = LanguageManager::new(Language::UNSET);
    assert_eq!(m.get_current_language(), Language::UNSET);
    for l in ALL {
        m.set_current_language(l);
        assert_eq!(m.get_current_language(), l);
    }
}

#[test]
fn language_manager_set_as_str() {
    let mut m = LanguageManager::new(Language::FRENCH);
    m.set_current_language_as_str("it");
    assert_eq!(m.get_current_language(), Language::ITALIAN);
    m.set_current_language_as_str("Spanish");
    assert_eq!(m.get_current_language(), Language::SPANISH);
    m.set_current_language_as_str("klingon");
    assert_eq!(m.get_current_language(), Language::UNSET);
}
