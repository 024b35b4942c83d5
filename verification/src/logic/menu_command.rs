//! What a click on a tray menu item asks for, from the item's id.
use crate::text::str_eq;
use vstd::prelude::*;

verus! {

/// What a menu item asks for.
#[derive(Debug, Clone, Copy, PartialEq, Eq, Structural)]
pub enum MenuCommand {
    StartSmartAction,
    StopSmartAction,
    StopVocalAudio,
    TryToFixIssues,
    Quit,
    /// Select the language; the three flags are the checked states of the
    /// "unset", "en" and "it" items.
    SelectLanguage { unset: bool, en: bool, it: bool },
    ToggleAudio,
    NotHandled,
}

/// The command of the menu item with id `id`.
pub open spec fn menu_command_of(id: Seq<char>) -> MenuCommand {
    if id == "start"@ {
        MenuCommand::StartSmartAction
    } else if id == "stop"@ {
        MenuCommand::StopSmartAction
    } else if id == "stop_vocal_audio"@ {
        MenuCommand::StopVocalAudio
    } else if id == "try_to_fix_issues"@ {
        MenuCommand::TryToFixIssues
    } else if id == "quit"@ {
        MenuCommand::Quit
    } else if id == "unset"@ || id == "en"@ || id == "it"@ {
        MenuCommand::SelectLanguage { unset: id == "unset"@, en: id == "en"@, it: id == "it"@ }
    } else if id == "audio_enabled"@ {
        MenuCommand::ToggleAudio
    } else {
        MenuCommand::NotHandled
    }
}

/// The command of the menu item with id `id`.
pub fn menu_command(id: &str) -> (r: MenuCommand)
    ensures
        r == menu_command_of(id@),
{
    if str_eq(id, "start") {
        MenuCommand::StartSmartAction
    } else if str_eq(id, "stop") {
        MenuCommand::StopSmartAction
    } else if str_eq(id, "stop_vocal_audio") {
        MenuCommand::StopVocalAudio
    } else if str_eq(id, "try_to_fix_issues") {
        MenuCommand::TryToFixIssues
    } else if str_eq(id, "quit") {
        MenuCommand::Quit
    } else if str_eq(id, "unset") || str_eq(id, "en") || str_eq(id, "it") {
        MenuCommand::SelectLanguage {
            unset: str_eq(id, "unset"),
            en: str_eq(id, "en"),
            it: str_eq(id, "it"),
        }
    } else if str_eq(id, "audio_enabled") {
        MenuCommand::ToggleAudio
    } else {
        MenuCommand::NotHandled
    }
}

/// Selecting a language checks exactly one of the three language items.
pub proof fn lemma_language_selection_checks_one_item(id: Seq<char>)
    ensures
        menu_command_of(id) matches MenuCommand::SelectLanguage { unset, en, it } ==> (unset as int)
            + (en as int) + (it as int) == 1,
{
    reveal_strlit("unset");
    reveal_strlit("en");
    reveal_strlit("it");
    assert("unset"@.len() != "en"@.len());
    assert("unset"@.len() != "it"@.len());
    assert("en"@[0] != "it"@[0]);
}

} // verus!
