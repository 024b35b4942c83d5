use smart_actions::domain::language::Language;
use smart_actions::logic::language_manager::language_from_locale;
use smart_actions::logic::menu_command::{menu_command, MenuCommand};

#[test]
fn locale_language_part_selects_language() {
    assert_eq!(language_from_locale(Some("it-IT")), Language::ITALIAN);
    assert_eq!(language_from_locale(Some("en")), Language::ENGLISH);
    assert_eq!(language_from_locale(Some("fr-CA-x")), Language::FRENCH);
    assert_eq!(language_from_locale(Some("de-DE")), Language::UNSET);
    assert_eq!(language_from_locale(Some("-en")), Language::UNSET);
    assert_eq!(language_from_locale(Some("")), Language::UNSET);
    assert_eq!(language_from_locale(None), Language::UNSET);
}

#[test]
fn menu_ids_map_to_commands() {
    assert_eq!(menu_command("start"), MenuCommand::StartSmartAction);
    assert_eq!(menu_command("stop"), MenuCommand::StopSmartAction);
    assert_eq!(menu_command("stop_vocal_audio"), MenuCommand::StopVocalAudio);
    assert_eq!(menu_command("try_to_fix_issues"), MenuCommand::TryToFixIssues);
    assert_eq!(menu_command("quit"), MenuCommand::Quit);
    assert_eq!(menu_command("audio_enabled"), MenuCommand::ToggleAudio);
    assert_eq!(
        menu_command("unset"),
        MenuCommand::SelectLanguage { unset: true, en: false, it: false }
    );
    assert_eq!(
        menu_command("en"),
        MenuCommand::SelectLanguage { unset: false, en: true, it: false }
    );
    assert_eq!(
        menu_command("it"),
        MenuCommand::SelectLanguage { unset: false, en: false, it: true }
    );
    assert_eq!(menu_command("fr"), MenuCommand::NotHandled);
    assert_eq!(menu_command("action_name_menu_item"), MenuCommand::NotHandled);
    assert_eq!(menu_command(""), MenuCommand::NotHandled);
}
