use crate::domain::app_config::{script_path, script_path_in, AppConfig};
use crate::domain::audio::{audio_file, Audio};
use crate::domain::command_line::CommandLine;
use crate::text::{str_chars, strip_range, trim};
use std::io::Error;
use vstd::prelude::*;
use vstd::string::StringExecFns;

verus! {

/// Whether sounds are enabled, and where the script that speaks lives.
/// There is one flag per manager and the manager cannot be cloned: every
/// part of the application that reads or sets the flag goes through the
/// same manager (the one inside the `SmartActionManager`), so a flag set
/// is what every later read sees.
#[derive(Debug)]
pub struct AudioPlayerManager {
    app_config: AppConfig,
    is_audio_enabled: bool,
}

/// The arguments to `bash` that speak `text`, in `language` unless that is
/// blank.
pub open spec fn text_to_speech_args(folder: Seq<char>, text: Seq<char>, language: Seq<char>) -> Seq<Seq<char>> {
    let base = seq![script_path(folder), "text_to_speech"@, "--text"@, text];
    if trim(language).len() == 0 {
        base
    } else {
        base + seq!["--language"@, language]
    }
}

/// The arguments to `ffplay` that play a sound file once, silently and
/// without a window.
pub open spec fn play_file_args(file: Seq<char>) -> Seq<Seq<char>> {
    seq!["-v"@, "0"@, "-nodisp"@, "-autoexit"@, file]
}

impl AudioPlayerManager {
    /// Whether sounds are enabled.
    pub closed spec fn audio_enabled(&self) -> bool {
        self.is_audio_enabled
    }

    /// The folder of the smart-actions script.
    pub closed spec fn folder(&self) -> Seq<char> {
        self.app_config.smart_actions_folder@
    }

    pub fn new(app_config: AppConfig, is_audio_enabled: bool) -> (r: Self)
        ensures
            r.audio_enabled() == is_audio_enabled,
            r.folder() == app_config.smart_actions_folder@,
    {
        Self { app_config, is_audio_enabled }
    }

    /// Enables or disables sounds; this never fails.
    pub fn set_audio_enabled(&mut self, is_audio_enabled: bool) -> (r: Result<(), Error>)
        ensures
            r is Ok,
            final(self).audio_enabled() == is_audio_enabled,
            final(self).folder() == old(self).folder(),
        no_unwind
    {
        self.is_audio_enabled = is_audio_enabled;
        Ok(())
    }

    /// Whether sounds are enabled; this never fails.
    pub fn is_audio_enabled(&self) -> (r: Result<bool, Error>)
        ensures
            r matches Ok(b) && b == self.audio_enabled(),
    {
        Ok(self.is_audio_enabled)
    }

    /// The command that speaks `text`, or `None` when sounds are disabled.
    pub fn play_sound_from_text(&self, text: &str, language: &str) -> (r: Option<CommandLine>)
        ensures
            r is Some <==> self.audio_enabled(),
            r matches Some(c) ==> c@.program == "bash"@ && c@.args == text_to_speech_args(
                self.folder(),
                text@,
                language@,
            ),
    {
        if !self.is_audio_enabled {
            return None;
        }
        let mut args: Vec<String> = Vec::new();
        args.push(script_path_in(&self.app_config.smart_actions_folder));
        args.push(String::from_str("text_to_speech"));
        args.push(String::from_str("--text"));
        args.push(String::from_str(text));
        let lang = str_chars(language);
        let (a, b) = strip_range(&lang, 0, lang.len(), false);
        assert(lang@.subrange(0, lang.len() as int) =~= language@);
        if a != b {
            args.push(String::from_str("--language"));
            args.push(String::from_str(language));
        }
        let c = CommandLine { program: String::from_str("bash"), args };
        assert(c@.args =~= text_to_speech_args(self.folder(), text@, language@));
        Some(c)
    }

    /// The command that speaks the value of a smart action in English, or
    /// `None` when sounds are disabled.
    pub fn play_sound_for_smart_action(&self, smart_action_value: &str) -> (r: Option<CommandLine>)
        ensures
            r is Some <==> self.audio_enabled(),
            r matches Some(c) ==> c@.program == "bash"@ && c@.args == text_to_speech_args(
                self.folder(),
                smart_action_value@,
                "en"@,
            ),
    {
        if self.is_audio_enabled {
            self.play_sound_from_text(smart_action_value, "en")
        } else {
            None
        }
    }

    /// The command that plays a sound file.
    pub fn play_audio_file(&self, audio: Audio) -> (r: CommandLine)
        ensures
            r@.program == "ffplay"@,
            r@.args == play_file_args(audio_file(audio)),
    {
        let mut args: Vec<String> = Vec::new();
        args.push(String::from_str("-v"));
        args.push(String::from_str("0"));
        args.push(String::from_str("-nodisp"));
        args.push(String::from_str("-autoexit"));
        args.push(audio.file());
        let c = CommandLine { program: String::from_str("ffplay"), args };
        assert(c@.args =~= play_file_args(audio_file(audio)));
        c
    }
}

} // verus!
