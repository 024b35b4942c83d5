//! The life of a smart action: selecting it, starting its process,
//! stopping it, and what follows when the process ends. Each step updates
//! the manager and returns what the application must do: the commands to
//! run, the icon to show and the event to send to the user interface.
use crate::domain::app_config::{script_path, script_path_in, AppConfig};
use crate::domain::audio::{audio_file, Audio};
use crate::domain::command_line::CommandLine;
use crate::domain::constants::{
    EVENT_TO_UI_ENABLE_AUDIO_CHANGED, EVENT_TO_UI_NEXT_SMART_ACTION,
    EVENT_TO_UI_PREVIOUS_SMART_ACTION, EVENT_TO_UI_RECORDING_START, EVENT_TO_UI_WAITING_ERROR,
    EVENT_TO_UI_WAITING_START, EVENT_TO_UI_WAITING_STOP,
};
use crate::domain::mouse_cursor_icon::{cursor_name, MouseCursorIcon};
use crate::domain::smart_action::{args_view, SmartAction, SmartActionState, SmartActionStatus};
use crate::logic::audio_player_manager::{play_file_args, AudioPlayerManager};
use crate::logic::menu_action_state_manager::{MenuManager, MenuModel};
use crate::logic::tray_icon_manager::{AppIcon, TrayIconError, TrayIconManager};
use crate::ordered_map::keys_distinct;
use crate::text::{str_chars, str_eq};
use std::io::Error;
use vstd::prelude::*;
use vstd::string::{StrSliceExecFns, StringExecFns};

verus! {

/// An event for the user interface.
#[derive(Debug, Clone, Copy, PartialEq, Eq, Structural)]
pub enum UiEvent {
    NextSmartAction,
    PreviousSmartAction,
    RecordingStart,
    WaitingStart,
    WaitingStop,
    WaitingError,
    EnableAudioChanged(bool),
}

impl UiEvent {
    /// The name under which the event is sent.
    pub fn name(&self) -> (r: &'static str)
        ensures
            r@ == match *self {
                UiEvent::NextSmartAction => EVENT_TO_UI_NEXT_SMART_ACTION@,
                UiEvent::PreviousSmartAction => EVENT_TO_UI_PREVIOUS_SMART_ACTION@,
                UiEvent::RecordingStart => EVENT_TO_UI_RECORDING_START@,
                UiEvent::WaitingStart => EVENT_TO_UI_WAITING_START@,
                UiEvent::WaitingStop => EVENT_TO_UI_WAITING_STOP@,
                UiEvent::WaitingError => EVENT_TO_UI_WAITING_ERROR@,
                UiEvent::EnableAudioChanged(_) => EVENT_TO_UI_ENABLE_AUDIO_CHANGED@,
            },
    {
        match self {
            UiEvent::NextSmartAction => EVENT_TO_UI_NEXT_SMART_ACTION,
            UiEvent::PreviousSmartAction => EVENT_TO_UI_PREVIOUS_SMART_ACTION,
            UiEvent::RecordingStart => EVENT_TO_UI_RECORDING_START,
            UiEvent::WaitingStart => EVENT_TO_UI_WAITING_START,
            UiEvent::WaitingStop => EVENT_TO_UI_WAITING_STOP,
            UiEvent::WaitingError => EVENT_TO_UI_WAITING_ERROR,
            UiEvent::EnableAudioChanged(_) => EVENT_TO_UI_ENABLE_AUDIO_CHANGED,
        }
    }

    /// The text sent with the event (the audio event carries its flag instead).
    pub fn message(&self) -> (r: &'static str)
        ensures
            r@ == match *self {
                UiEvent::RecordingStart => "Start recording..."@,
                UiEvent::WaitingStart => "Waiting response..."@,
                UiEvent::WaitingStop => "Stop waiting..."@,
                UiEvent::WaitingError => "Error during waiting..."@,
                _ => ""@,
            },
    {
        match self {
            UiEvent::RecordingStart => "Start recording...",
            UiEvent::WaitingStart => "Waiting response...",
            UiEvent::WaitingStop => "Stop waiting...",
            UiEvent::WaitingError => "Error during waiting...",
            _ => "",
        }
    }
}

/// How waiting for a smart action's process ended.
#[derive(Debug, Clone, Copy, PartialEq, Eq, Structural)]
pub enum ProcessExit {
    /// Waiting for the process failed.
    WaitFailed,
    /// The process exited; `success` tells whether with a success status.
    Exited { success: bool },
}

/// What to do when a smart action starts.
pub struct StartPlan {
    /// The icon to show in the tray, by its resolved path.
    pub tray_icon: Result<String, TrayIconError>,
    /// The command that plays the start sound.
    pub start_sound: CommandLine,
    /// The smart action's own command, whose end is to be awaited.
    pub smart_action: CommandLine,
    pub event: UiEvent,
}

/// What to do when a smart action's process has ended.
pub struct FinishPlan {
    pub status: SmartActionStatus,
    pub event: UiEvent,
    pub tray_icon: Result<String, TrayIconError>,
    /// The command that restores the mouse cursor.
    pub cursor: CommandLine,
    /// The command that plays the stop sound.
    pub stop_sound: CommandLine,
}

/// What to do once the command that ends the recording has completed.
pub struct StopPlan {
    pub tray_icon: Result<String, TrayIconError>,
    pub event: UiEvent,
    /// The command that shows the waiting mouse cursor.
    pub cursor: CommandLine,
}

/// The text given to the speech engine: `$`, `"` and `'` dropped, each
/// line feed replaced by ". ".
pub open spec fn sanitize_text(s: Seq<char>) -> Seq<char>
    decreases s.len(),
{
    if s.len() == 0 {
        Seq::<char>::empty()
    } else {
        let prev = sanitize_text(s.drop_last());
        let c = s.last();
        if c == '$' || c == '"' || c == '\'' {
            prev
        } else if c == '\n' {
            prev + seq!['.', ' ']
        } else {
            prev.push(c)
        }
    }
}

/// Whatever the text, what goes to the speech engine holds no `$`, no
/// quote of either kind and no line feed.
pub proof fn lemma_sanitized_text_is_clean(s: Seq<char>)
    ensures
        forall|i: int|
            0 <= i < sanitize_text(s).len() ==> {
                let c = #[trigger] sanitize_text(s)[i];
                c != '$' && c != '"' && c != '\'' && c != '\n'
            },
    decreases s.len(),
{
    if s.len() > 0 {
        lemma_sanitized_text_is_clean(s.drop_last());
        let prev = sanitize_text(s.drop_last());
        let r = sanitize_text(s);
        assert forall|i: int| 0 <= i < r.len() implies {
            let c = #[trigger] r[i];
            c != '$' && c != '"' && c != '\'' && c != '\n'
        } by {
            if i < prev.len() {
                assert(r[i] == prev[i]);
            }
        }
    }
}

/// The option and the value that one argument's map gives, reading its
/// pairs in order: the pair with key `arg` gives the option, any other
/// pair the value (sanitized when the action is `text_to_speech` and the
/// key is `text`); a later pair overrides an earlier one.
pub open spec fn arg_param_value(action_value: Seq<char>, entries: Seq<(Seq<char>, Seq<char>)>) -> (
    Seq<char>,
    Seq<char>,
)
    decreases entries.len(),
{
    if entries.len() == 0 {
        (Seq::<char>::empty(), Seq::<char>::empty())
    } else {
        let prev = arg_param_value(action_value, entries.drop_last());
        let (k, v) = entries.last();
        if k == "arg"@ {
            (v, prev.1)
        } else if action_value == "text_to_speech"@ && k == "text"@ {
            (prev.0, sanitize_text(v))
        } else {
            (prev.0, v)
        }
    }
}

/// The characters that cleaning for speech touches.
pub open spec fn is_speech_special(c: char) -> bool {
    c == '$' || c == '"' || c == '\'' || c == '\n'
}

/// Cleaning for speech works character by character and keeps everything
/// else in order: the cleaned text of two texts one after the other is the
/// cleaned first followed by the cleaned second; a character other than
/// `$`, the two quotes and the line feed is kept as it is; `$` and the
/// quotes are dropped; a line feed becomes ". "; and a text without those
/// four characters comes back unchanged.
pub proof fn lemma_sanitize_keeps_other_characters(s: Seq<char>, t: Seq<char>, c: char)
    ensures
        sanitize_text(s + t) == sanitize_text(s) + sanitize_text(t),
        !is_speech_special(c) ==> sanitize_text(s.push(c)) == sanitize_text(s).push(c),
        (c == '$' || c == '"' || c == '\'') ==> sanitize_text(s.push(c)) == sanitize_text(s),
        c == '\n' ==> sanitize_text(s.push(c)) == sanitize_text(s) + seq!['.', ' '],
        (forall|i: int| 0 <= i < s.len() ==> !is_speech_special(#[trigger] s[i]))
            ==> sanitize_text(s) == s,
    decreases t.len(), s.len(),
{
    assert(s.push(c).drop_last() =~= s);
    if t.len() == 0 {
        assert(s + t =~= s);
        assert(sanitize_text(s) + sanitize_text(t) =~= sanitize_text(s));
    } else {
        lemma_sanitize_keeps_other_characters(s, t.drop_last(), c);
        assert((s + t).drop_last() =~= s + t.drop_last());
        assert((s + t).last() == t.last());
        let st = sanitize_text(s);
        let pt = sanitize_text(t.drop_last());
        assert(sanitize_text(s + t) =~= st + sanitize_text(t)) by {
            let d = t.last();
            if d == '$' || d == '"' || d == '\'' {
            } else if d == '\n' {
                assert(st + pt + seq!['.', ' '] =~= st + (pt + seq!['.', ' ']));
            } else {
                assert((st + pt).push(d) =~= st + pt.push(d));
            }
        }
    }
    if s.len() > 0 && (forall|i: int| 0 <= i < s.len() ==> !is_speech_special(#[trigger] s[i])) {
        let s2 = s.drop_last();
        assert(forall|i: int| 0 <= i < s2.len() ==> !is_speech_special(#[trigger] s2[i])) by {
            assert forall|i: int| 0 <= i < s2.len() implies !is_speech_special(#[trigger] s2[i]) by {
                assert(s2[i] == s[i]);
            }
        }
        lemma_sanitize_keeps_other_characters(s2, seq![], c);
        assert(!is_speech_special(s[s.len() - 1]));
        assert(s2.push(s.last()) =~= s);
    }
    if s.len() == 0 {
        assert(sanitize_text(s) =~= s);
    }
}

/// What an argument adds to the command line depends on that argument
/// alone: the options of two argument lists one after the other are the
/// options of the first followed by those of the second; one more argument
/// adds its option and value at the end when its value is not empty, and
/// nothing when it is.
pub proof fn lemma_cli_args_by_argument(
    action_value: Seq<char>,
    xs: Seq<Seq<(Seq<char>, Seq<char>)>>,
    ys: Seq<Seq<(Seq<char>, Seq<char>)>>,
    a: Seq<(Seq<char>, Seq<char>)>,
)
    ensures
        smart_action_cli_args(action_value, xs + ys) == smart_action_cli_args(action_value, xs)
            + smart_action_cli_args(action_value, ys),
        arg_param_value(action_value, a).1.len() == 0 ==> smart_action_cli_args(
            action_value,
            xs.push(a),
        ) == smart_action_cli_args(action_value, xs),
        arg_param_value(action_value, a).1.len() != 0 ==> smart_action_cli_args(
            action_value,
            xs.push(a),
        ) == smart_action_cli_args(action_value, xs) + seq![
            arg_param_value(action_value, a).0,
            arg_param_value(action_value, a).1,
        ],
    decreases ys.len(),
{
    assert(xs.push(a).drop_last() =~= xs);
    let cx = smart_action_cli_args(action_value, xs);
    let pv = arg_param_value(action_value, a);
    assert(cx.push(pv.0).push(pv.1) =~= cx + seq![pv.0, pv.1]);
    if ys.len() == 0 {
        assert(xs + ys =~= xs);
        assert(cx + smart_action_cli_args(action_value, ys) =~= cx);
    } else {
        lemma_cli_args_by_argument(action_value, xs, ys.drop_last(), a);
        assert((xs + ys).drop_last() =~= xs + ys.drop_last());
        assert((xs + ys).last() == ys.last());
        let cy = smart_action_cli_args(action_value, ys.drop_last());
        let q = arg_param_value(action_value, ys.last());
        assert((cx + cy).push(q.0).push(q.1) =~= cx + cy.push(q.0).push(q.1));
    }
}

/// The value that one pair of an argument's map gives: sanitized when the
/// action is `text_to_speech` and the key is `text`.
pub open spec fn pair_value(action_value: Seq<char>, pair: (Seq<char>, Seq<char>)) -> Seq<char> {
    if action_value == "text_to_speech"@ && pair.0 == "text"@ {
        sanitize_text(pair.1)
    } else {
        pair.1
    }
}

/// In a map with each key once, the option is the value of the `arg` key,
/// whatever order the map's pairs come in.
pub proof fn lemma_param_is_arg_value(
    action_value: Seq<char>,
    entries: Seq<(Seq<char>, Seq<char>)>,
    i: int,
)
    requires
        keys_distinct(entries),
        0 <= i < entries.len(),
        entries[i].0 == "arg"@,
    ensures
        arg_param_value(action_value, entries).0 == entries[i].1,
    decreases entries.len(),
{
    if i < entries.len() - 1 {
        let e2 = entries.drop_last();
        assert(entries.last().0 != "arg"@) by {
            assert(entries[entries.len() - 1].0 != entries[i].0);
        }
        assert forall|a: int, b: int| 0 <= a < e2.len() && 0 <= b < e2.len() && a != b implies e2[a].0 != e2[b].0 by {
            assert(e2[a] == entries[a] && e2[b] == entries[b]);
        }
        lemma_param_is_arg_value(action_value, e2, i);
    }
}

/// In a map whose only key besides `arg` is at `j`, the value is that
/// pair's, whatever order the map's pairs come in.
pub proof fn lemma_value_is_other_pair(
    action_value: Seq<char>,
    entries: Seq<(Seq<char>, Seq<char>)>,
    j: int,
)
    requires
        0 <= j < entries.len(),
        entries[j].0 != "arg"@,
        forall|k: int| 0 <= k < entries.len() && k != j ==> #[trigger] entries[k].0 == "arg"@,
    ensures
        arg_param_value(action_value, entries).1 == pair_value(action_value, entries[j]),
    decreases entries.len(),
{
    if j < entries.len() - 1 {
        let e2 = entries.drop_last();
        assert(entries[entries.len() - 1].0 == "arg"@);
        assert forall|k: int| 0 <= k < e2.len() && k != j implies #[trigger] e2[k].0 == "arg"@ by {
            assert(e2[k] == entries[k]);
        }
        lemma_value_is_other_pair(action_value, e2, j);
    }
}

/// The option-value pairs that the arguments add to the command line, in
/// order; an argument whose value is empty adds nothing.
pub open spec fn smart_action_cli_args(
    action_value: Seq<char>,
    args: Seq<Seq<(Seq<char>, Seq<char>)>>,
) -> Seq<Seq<char>>
    decreases args.len(),
{
    if args.len() == 0 {
        Seq::<Seq<char>>::empty()
    } else {
        let prev = smart_action_cli_args(action_value, args.drop_last());
        let pv = arg_param_value(action_value, args.last());
        if pv.1.len() == 0 {
            prev
        } else {
            prev.push(pv.0).push(pv.1)
        }
    }
}

/// The arguments to `bash` that run a smart action: the script, the
/// action's value, then its options.
pub open spec fn smart_action_command_args(
    folder: Seq<char>,
    action_value: Seq<char>,
    args: Seq<Seq<(Seq<char>, Seq<char>)>>,
) -> Seq<Seq<char>> {
    seq![script_path(folder), action_value] + smart_action_cli_args(action_value, args)
}

/// The processes that "try to fix issues" kills.
pub open spec fn processes_to_kill() -> Seq<Seq<char>> {
    seq![
        "piper"@,
        "nerd-dictation"@,
        "whisper"@,
        "ffmpeg"@,
        "tgpt"@,
        "dotool"@,
        "smart-actions.sh"@,
    ]
}

/// The arguments to `pkill` that kill every process whose command line
/// contains `name`.
pub open spec fn kill_args(name: Seq<char>) -> Seq<Seq<char>> {
    seq!["-9"@, "-f"@, name]
}

/// The arguments to `xsetroot` that set the mouse cursor.
pub open spec fn cursor_args(icon: MouseCursorIcon) -> Seq<Seq<char>> {
    seq!["-cursor_name"@, cursor_name(icon)]
}

/// The status and event that the end of a smart action's process gives.
pub open spec fn terminal_outcome(success: bool) -> (SmartActionStatus, UiEvent) {
    if success {
        (SmartActionStatus::COMPLETED, UiEvent::WaitingStop)
    } else {
        (SmartActionStatus::FAILED, UiEvent::WaitingError)
    }
}

/// Whether a smart action may start: none is running or awaiting its result.
pub open spec fn can_start(running: bool, waiting: bool) -> bool {
    !running && !waiting
}

/// Whether the running smart action may be stopped: it runs and is not
/// already awaiting its result.
pub open spec fn can_stop(running: bool, waiting: bool) -> bool {
    running && !waiting
}

/// The process state that every step keeps: only a running action awaits
/// its result.
pub open spec fn flags_consistent(running: bool, waiting: bool) -> bool {
    waiting ==> running
}

/// The process state after a start request.
pub open spec fn after_start(running: bool, waiting: bool) -> (bool, bool) {
    if can_start(running, waiting) {
        (true, waiting)
    } else {
        (running, waiting)
    }
}

/// The process state after a stop request.
pub open spec fn after_stop(running: bool, waiting: bool) -> (bool, bool) {
    if can_stop(running, waiting) {
        (running, true)
    } else {
        (running, waiting)
    }
}

/// The process state once the smart action's process has ended.
pub open spec fn after_finish(running: bool, waiting: bool) -> (bool, bool) {
    (false, false)
}

/// Every step keeps the process state consistent (only a running action
/// awaits its result); a started action cannot be started again until its
/// process ends; nothing can be stopped before it is started; stopping
/// twice does nothing the second time; and once the process has ended a
/// new action can start.
pub proof fn lemma_process_state_machine(running: bool, waiting: bool)
    requires
        flags_consistent(running, waiting),
    ensures
        flags_consistent(after_start(running, waiting).0, after_start(running, waiting).1),
        flags_consistent(after_stop(running, waiting).0, after_stop(running, waiting).1),
        flags_consistent(after_finish(running, waiting).0, after_finish(running, waiting).1),
        can_start(running, waiting) ==> !can_start(
            after_start(running, waiting).0,
            after_start(running, waiting).1,
        ),
        can_start(running, waiting) ==> !can_stop(running, waiting),
        !can_stop(after_stop(running, waiting).0, after_stop(running, waiting).1),
        can_start(after_finish(running, waiting).0, after_finish(running, waiting).1),
{
}

fn literal(s: &str) -> (r: String)
    ensures
        r@ == s@,
{
    String::from_str(s)
}

/// `text` with `$`, `"` and `'` dropped and each line feed replaced by ". ".
pub fn sanitize(text: &str) -> (r: String)
    ensures
        r@ == sanitize_text(text@),
{
    let chars = str_chars(text);
    let mut out = String::new();
    let mut i: usize = 0;
    while i < chars.len()
        invariant
            chars@ == text@,
            i <= chars.len(),
            out@ == sanitize_text(chars@.subrange(0, i as int)),
        decreases chars.len() - i,
    {
        let c = chars[i];
        let ghost s = chars@.subrange(0, i + 1);
        assert(s.drop_last() =~= chars@.subrange(0, i as int));
        assert(s.last() == c);
        if c == '$' || c == '"' || c == '\'' {
        } else if c == '\n' {
            out.append(". ");
            proof {
                reveal_strlit(". ");
            }
            assert(out@ =~= sanitize_text(s));
        } else {
            out.append(text.substring_char(i, i + 1));
            assert(out@ =~= sanitize_text(s));
        }
        i = i + 1;
    }
    assert(chars@.subrange(0, chars.len() as int) =~= text@);
    out
}

/// The option and value of one argument's map.
fn param_and_value(action_value: &String, entries: &Vec<(String, String)>) -> (r: (String, String))
    ensures
        (r.0@, r.1@) == arg_param_value(
            action_value@,
            entries@.map_values(|p: (String, String)| (p.0@, p.1@)),
        ),
{
    let is_tts = str_eq(action_value.as_str(), "text_to_speech");
    let ghost ev = entries@.map_values(|p: (String, String)| (p.0@, p.1@));
    let mut param = String::new();
    let mut value = String::new();
    let mut k: usize = 0;
    while k < entries.len()
        invariant
            ev == entries@.map_values(|p: (String, String)| (p.0@, p.1@)),
            is_tts == (action_value@ == "text_to_speech"@),
            k <= entries.len(),
            (param@, value@) == arg_param_value(action_value@, ev.subrange(0, k as int)),
        decreases entries.len() - k,
    {
        let key = &entries[k].0;
        let v = &entries[k].1;
        assert(ev.subrange(0, k + 1).drop_last() =~= ev.subrange(0, k as int));
        assert(ev.subrange(0, k + 1).last() == (key@, v@));
        if str_eq(key.as_str(), "arg") {
            param = v.clone();
        } else if is_tts && str_eq(key.as_str(), "text") {
            value = sanitize(v.as_str());
        } else {
            value = v.clone();
        }
        k = k + 1;
    }
    assert(ev.subrange(0, entries.len() as int) =~= ev);
    (param, value)
}

/// The command that kills every process whose command line contains `name`.
pub fn kill_process_command(name: &str) -> (r: CommandLine)
    ensures
        r@.program == "pkill"@,
        r@.args == kill_args(name@),
{
    let mut args: Vec<String> = Vec::new();
    args.push(literal("-9"));
    args.push(literal("-f"));
    args.push(literal(name));
    let r = CommandLine { program: literal("pkill"), args };
    assert(r@.args =~= kill_args(name@));
    r
}

/// The command that sets the mouse cursor.
pub fn mouse_cursor_command(icon: &MouseCursorIcon) -> (r: CommandLine)
    ensures
        r@.program == "xsetroot"@,
        r@.args == cursor_args(*icon),
{
    let mut args: Vec<String> = Vec::new();
    args.push(literal("-cursor_name"));
    args.push(literal(icon.value()));
    let r = CommandLine { program: literal("xsetroot"), args };
    assert(r@.args =~= cursor_args(*icon));
    r
}

/// Selects, starts and stops smart actions, keeping the menu, the tray
/// icon and the sounds in step.
pub struct SmartActionManager {
    app_config: AppConfig,
    menu_manager: MenuManager,
    tray_icon_manager: TrayIconManager,
    audio_player_manager: AudioPlayerManager,
    smart_action_state: SmartActionState,
    is_running: bool,
    is_waiting: bool,
}

impl SmartActionManager {
    #[verifier::type_invariant]
    spec fn only_running_action_awaits(self) -> bool {
        flags_consistent(self.is_running, self.is_waiting)
    }

    /// Whether a smart action's process runs.
    pub closed spec fn running(&self) -> bool {
        self.is_running
    }

    /// Whether the running action has been stopped and its result is awaited.
    pub closed spec fn waiting(&self) -> bool {
        self.is_waiting
    }

    pub closed spec fn menu(&self) -> MenuModel {
        self.menu_manager@
    }

    /// The folder of the smart-actions script.
    pub closed spec fn folder(&self) -> Seq<char> {
        self.app_config.smart_actions_folder@
    }

    pub closed spec fn audio(&self) -> AudioPlayerManager {
        self.audio_player_manager
    }

    pub closed spec fn tray(&self) -> TrayIconManager {
        self.tray_icon_manager
    }

    /// The value of the current smart action.
    pub closed spec fn current_value(&self) -> Seq<char> {
        self.smart_action_state.value@
    }

    /// The arguments of the current smart action.
    pub closed spec fn current_args(&self) -> Seq<Seq<(Seq<char>, Seq<char>)>> {
        args_view(self.smart_action_state.args@)
    }

    /// A manager with `smart_action` selected and nothing running.
    pub fn new(
        app_config: AppConfig,
        menu_manager: MenuManager,
        tray_icon_manager: TrayIconManager,
        audio_player_manager: AudioPlayerManager,
        smart_action: SmartAction,
    ) -> (r: Self)
        ensures
            !r.running(),
            !r.waiting(),
            flags_consistent(r.running(), r.waiting()),
            r.folder() == app_config.smart_actions_folder@,
            r.menu() == menu_manager@,
            r.tray() == tray_icon_manager,
            r.audio() == audio_player_manager,
            r.current_value() == smart_action.value@,
            r.current_args() == args_view(smart_action.args@),
    {
        SmartActionManager {
            app_config,
            menu_manager,
            tray_icon_manager,
            audio_player_manager,
            smart_action_state: SmartActionState::new(smart_action),
            is_running: false,
            is_waiting: false,
        }
    }

    /// The event that asks the user interface for the next smart action.
    pub fn change_with_next_smart_action(&self) -> (r: UiEvent)
        ensures
            r == UiEvent::NextSmartAction,
    {
        UiEvent::NextSmartAction
    }

    /// The event that asks the user interface for the previous smart action.
    pub fn change_with_previous_smart_action(&self) -> (r: UiEvent)
        ensures
            r == UiEvent::PreviousSmartAction,
    {
        UiEvent::PreviousSmartAction
    }

    /// Selects `new_smart_action` and shows its name in the menu.
    pub fn change_current_smart_action(&mut self, new_smart_action: SmartAction)
        ensures
            final(self).current_value() == new_smart_action.value@,
            final(self).current_args() == args_view(new_smart_action.args@),
            final(self).menu() == (MenuModel {
                action_name_text: new_smart_action.name@,
                ..old(self).menu()
            }),
            final(self).running() == old(self).running(),
            final(self).waiting() == old(self).waiting(),
            final(self).folder() == old(self).folder(),
            final(self).audio() == old(self).audio(),
            final(self).tray() == old(self).tray(),
    {
        proof {
            use_type_invariant(&*self);
        }
        let name = new_smart_action.name.clone();
        self.menu_manager.set_action_name_text(name);
        self.smart_action_state = SmartActionState::new(new_smart_action);
    }

    /// Starts the current smart action when none runs or awaits its
    /// result: marks it running and started in the menu, and returns what
    /// to do; otherwise changes nothing and returns `None`.
    pub fn start_current_smart_action(&mut self) -> (r: Option<StartPlan>)
        ensures
            flags_consistent(final(self).running(), final(self).waiting()),
            r is Some <==> can_start(old(self).running(), old(self).waiting()),
            (final(self).running(), final(self).waiting()) == after_start(
                old(self).running(),
                old(self).waiting(),
            ),
            r is None ==> *final(self) == *old(self),
            r matches Some(plan) ==> {
                &&& final(self).running()
                &&& final(self).waiting() == old(self).waiting()
                &&& final(self).menu() == (MenuModel {
                    is_action_started: true,
                    start_enabled: false,
                    stop_enabled: true,
                    ..old(self).menu()
                })
                &&& final(self).folder() == old(self).folder()
                &&& final(self).audio() == old(self).audio()
                &&& final(self).tray() == old(self).tray()
                &&& final(self).current_value() == old(self).current_value()
                &&& final(self).current_args() == old(self).current_args()
                &&& plan.tray_icon matches Ok(p) && p@ == old(self).tray().icon_path(
                    AppIcon::DEFAULT,
                )
                &&& plan.start_sound@.program == "ffplay"@
                &&& plan.start_sound@.args == play_file_args(audio_file(Audio::START))
                &&& plan.smart_action@.program == "bash"@
                &&& plan.smart_action@.args == smart_action_command_args(
                    old(self).folder(),
                    old(self).current_value(),
                    old(self).current_args(),
                )
                &&& plan.event == UiEvent::RecordingStart
            },
    {
        proof {
            use_type_invariant(&*self);
        }
        if !self.is_running && !self.is_waiting {
            self.is_running = true;
        } else {
            return None;
        }
        let tray_icon = self.tray_icon_manager.show_default_icon();
        self.menu_manager.set_action_started();
        let start_sound = self.audio_player_manager.play_audio_file(Audio::START);
        let smart_action = self.build_cmd_smart_action();
        Some(StartPlan { tray_icon, start_sound, smart_action, event: UiEvent::RecordingStart })
    }

    /// Records that the smart action's process has ended: nothing runs or
    /// awaits a result any more. When the process was awaited to its end,
    /// returns what to do; when waiting failed, `None`.
    pub fn finish_current_smart_action(&mut self, exit: ProcessExit) -> (r: Option<FinishPlan>)
        ensures
            flags_consistent(final(self).running(), final(self).waiting()),
            (final(self).running(), final(self).waiting()) == after_finish(
                old(self).running(),
                old(self).waiting(),
            ),
            final(self).menu() == old(self).menu(),
            final(self).folder() == old(self).folder(),
            final(self).audio() == old(self).audio(),
            final(self).tray() == old(self).tray(),
            final(self).current_value() == old(self).current_value(),
            final(self).current_args() == old(self).current_args(),
            r is Some <==> exit is Exited,
            r matches Some(plan) ==> {
                &&& exit matches ProcessExit::Exited { success } && (plan.status, plan.event)
                    == terminal_outcome(success)
                &&& plan.tray_icon matches Ok(p) && p@ == old(self).tray().icon_path(
                    AppIcon::DEFAULT,
                )
                &&& plan.cursor@.program == "xsetroot"@
                &&& plan.cursor@.args == cursor_args(MouseCursorIcon::DEFAULT)
                &&& plan.stop_sound@.program == "ffplay"@
                &&& plan.stop_sound@.args == play_file_args(audio_file(Audio::STOP))
            },
    {
        self.is_waiting = false;
        self.is_running = false;
        match exit {
            ProcessExit::WaitFailed => None,
            ProcessExit::Exited { success } => {
                let (status, event) = Self::emit_terminal_event(success);
                let tray_icon = self.tray_icon_manager.show_default_icon();
                let cursor = Self::set_mouse_cursor(&MouseCursorIcon::DEFAULT);
                let stop_sound = self.audio_player_manager.play_audio_file(Audio::STOP);
                Some(FinishPlan { status, event, tray_icon, cursor, stop_sound })
            },
        }
    }

    /// Stops the running smart action when it runs and is not already
    /// awaiting its result: marks it as awaited, enables the
    /// stop-vocal-audio item and returns the command that ends the
    /// recording; otherwise changes nothing and returns `None`.
    pub fn stop_current_smart_action(&mut self) -> (r: Option<CommandLine>)
        ensures
            flags_consistent(final(self).running(), final(self).waiting()),
            r is Some <==> can_stop(old(self).running(), old(self).waiting()),
            (final(self).running(), final(self).waiting()) == after_stop(
                old(self).running(),
                old(self).waiting(),
            ),
            r is None ==> *final(self) == *old(self),
            r matches Some(c) ==> {
                &&& final(self).running() && final(self).waiting()
                &&& final(self).menu() == (MenuModel {
                    vocal_audio_enabled: true,
                    ..old(self).menu()
                })
                &&& final(self).folder() == old(self).folder()
                &&& final(self).audio() == old(self).audio()
                &&& final(self).tray() == old(self).tray()
                &&& final(self).current_value() == old(self).current_value()
                &&& final(self).current_args() == old(self).current_args()
                &&& c@.program == "bash"@
                &&& c@.args == seq![script_path(old(self).folder()), "end"@]
            },
    {
        proof {
            use_type_invariant(&*self);
        }
        if self.is_running && !self.is_waiting {
            self.is_waiting = true;
        } else {
            return None;
        }
        self.menu_manager.set_vocal_audio_menu_item_enabled(true);
        let mut args: Vec<String> = Vec::new();
        args.push(script_path_in(&self.app_config.smart_actions_folder));
        args.push(literal("end"));
        let c = CommandLine { program: literal("bash"), args };
        assert(c@.args =~= seq![script_path(old(self).folder()), "end"@]);
        Some(c)
    }

    /// Records that the command that ends the recording has completed.
    /// When it completed normally, the action shows as stopped in the menu
    /// and the plan shows the waiting icon and cursor; when waiting for it
    /// failed, nothing changes and the result is `None`.
    pub fn stop_command_finished(&mut self, waited_ok: bool) -> (r: Option<StopPlan>)
        ensures
            r is Some <==> waited_ok,
            !waited_ok ==> *final(self) == *old(self),
            final(self).running() == old(self).running(),
            final(self).waiting() == old(self).waiting(),
            final(self).folder() == old(self).folder(),
            final(self).audio() == old(self).audio(),
            final(self).tray() == old(self).tray(),
            final(self).current_value() == old(self).current_value(),
            final(self).current_args() == old(self).current_args(),
            r matches Some(plan) ==> {
                &&& final(self).menu() == (MenuModel {
                    is_action_started: false,
                    start_enabled: true,
                    stop_enabled: false,
                    ..old(self).menu()
                })
                &&& plan.tray_icon matches Ok(p) && p@ == old(self).tray().icon_path(
                    AppIcon::WAITING,
                )
                &&& plan.event == UiEvent::WaitingStart
                &&& plan.cursor@.program == "xsetroot"@
                &&& plan.cursor@.args == cursor_args(MouseCursorIcon::WAITING)
            },
    {
        proof {
            use_type_invariant(&*self);
        }
        if !waited_ok {
            return None;
        }
        self.menu_manager.set_action_stopped();
        let tray_icon = self.tray_icon_manager.show_waiting_icon();
        let cursor = Self::set_mouse_cursor(&MouseCursorIcon::WAITING);
        Some(StopPlan { tray_icon, event: UiEvent::WaitingStart, cursor })
    }

    /// Shows the action as stopped in the menu: start enabled, stop disabled.
    pub fn set_menu_action_stopped(&mut self)
        ensures
            final(self).menu() == (MenuModel {
                is_action_started: false,
                start_enabled: true,
                stop_enabled: false,
                ..old(self).menu()
            }),
            final(self).running() == old(self).running(),
            final(self).waiting() == old(self).waiting(),
            final(self).folder() == old(self).folder(),
            final(self).audio() == old(self).audio(),
            final(self).tray() == old(self).tray(),
            final(self).current_value() == old(self).current_value(),
            final(self).current_args() == old(self).current_args(),
    {
        proof {
            use_type_invariant(&*self);
        }
        self.menu_manager.set_action_stopped();
    }

    /// Disables the stop-vocal-audio item and returns the command that
    /// stops the spoken output.
    pub fn stop_vocal_audio(&mut self) -> (r: CommandLine)
        ensures
            r@.program == "bash"@,
            r@.args == seq![script_path(old(self).folder()), "end_output_audio_vocal"@],
            final(self).menu() == (MenuModel { vocal_audio_enabled: false, ..old(self).menu() }),
            final(self).running() == old(self).running(),
            final(self).waiting() == old(self).waiting(),
            final(self).folder() == old(self).folder(),
            final(self).audio() == old(self).audio(),
            final(self).tray() == old(self).tray(),
            final(self).current_value() == old(self).current_value(),
            final(self).current_args() == old(self).current_args(),
    {
        proof {
            use_type_invariant(&*self);
        }
        let mut args: Vec<String> = Vec::new();
        args.push(script_path_in(&self.app_config.smart_actions_folder));
        args.push(literal("end_output_audio_vocal"));
        let c = CommandLine { program: literal("bash"), args };
        assert(c@.args =~= seq![script_path(old(self).folder()), "end_output_audio_vocal"@]);
        self.menu_manager.set_vocal_audio_menu_item_enabled(false);
        c
    }

    /// Whether sounds are enabled; this never fails.
    pub fn is_audio_enabled(&self) -> (r: Result<bool, Error>)
        ensures
            r matches Ok(b) && b == self.audio().audio_enabled(),
    {
        self.audio_player_manager.is_audio_enabled()
    }

    /// Enables or disables sounds and returns the event that tells the
    /// user interface.
    pub fn set_audio_enable(&mut self, is_audio_enabled: bool) -> (r: Option<UiEvent>)
        ensures
            r == Some(UiEvent::EnableAudioChanged(is_audio_enabled)),
            final(self).audio().audio_enabled() == is_audio_enabled,
            final(self).audio().folder() == old(self).audio().folder(),
            final(self).menu() == old(self).menu(),
            final(self).running() == old(self).running(),
            final(self).waiting() == old(self).waiting(),
            final(self).folder() == old(self).folder(),
            final(self).tray() == old(self).tray(),
            final(self).current_value() == old(self).current_value(),
            final(self).current_args() == old(self).current_args(),
    {
        proof {
            use_type_invariant(&*self);
        }
        match self.audio_player_manager.set_audio_enabled(is_audio_enabled) {
            Ok(()) => Some(UiEvent::EnableAudioChanged(is_audio_enabled)),
            Err(_) => None,
        }
    }

    /// The commands that kill the processes a smart action may have left
    /// behind, in order, followed by the one that restores the mouse cursor.
    pub fn try_to_fix_issues(&self) -> (r: Vec<CommandLine>)
        ensures
            r@.len() == processes_to_kill().len() + 1,
            forall|i: int|
                0 <= i < processes_to_kill().len() ==> (#[trigger] r@[i])@.program == "pkill"@
                    && r@[i]@.args == kill_args(processes_to_kill()[i]),
            r@[processes_to_kill().len() as int]@.program == "xsetroot"@,
            r@[processes_to_kill().len() as int]@.args == cursor_args(MouseCursorIcon::DEFAULT),
    {
        let mut r: Vec<CommandLine> = Vec::new();
        r.push(self.try_to_kill_process_or_print_error_if_it_fail("piper"));
        r.push(self.try_to_kill_process_or_print_error_if_it_fail("nerd-dictation"));
        r.push(self.try_to_kill_process_or_print_error_if_it_fail("whisper"));
        r.push(self.try_to_kill_process_or_print_error_if_it_fail("ffmpeg"));
        r.push(self.try_to_kill_process_or_print_error_if_it_fail("tgpt"));
        r.push(self.try_to_kill_process_or_print_error_if_it_fail("dotool"));
        r.push(self.try_to_kill_process_or_print_error_if_it_fail("smart-actions.sh"));
        r.push(Self::set_mouse_cursor(&MouseCursorIcon::DEFAULT));
        r
    }

    /// The command that kills every process whose command line contains
    /// `system_process_name`.
    pub fn try_to_kill_process_or_print_error_if_it_fail(&self, system_process_name: &str) -> (r:
        CommandLine)
        ensures
            r@.program == "pkill"@,
            r@.args == kill_args(system_process_name@),
    {
        kill_process_command(system_process_name)
    }

    /// The command that runs the current smart action with its options.
    pub fn build_cmd_smart_action(&self) -> (r: CommandLine)
        ensures
            r@.program == "bash"@,
            r@.args == smart_action_command_args(
                self.folder(),
                self.current_value(),
                self.current_args(),
            ),
    {
        let value = &self.smart_action_state.value;
        let args = &self.smart_action_state.args;
        let ghost av = args_view(args@);
        let mut out: Vec<String> = Vec::new();
        out.push(script_path_in(&self.app_config.smart_actions_folder));
        out.push(value.clone());
        assert(out@.map_values(|a: String| a@) =~= seq![script_path(self.folder()), value@]
            + smart_action_cli_args(value@, av.subrange(0, 0)));
        let mut i: usize = 0;
        while i < args.len()
            invariant
                av == args_view(args@),
                i <= args.len(),
                out@.map_values(|a: String| a@) == seq![script_path(self.folder()), value@]
                    + smart_action_cli_args(value@, av.subrange(0, i as int)),
            decreases args.len() - i,
        {
            let (param, arg_value) = param_and_value(value, &args[i]);
            let ghost prev = out@.map_values(|a: String| a@);
            assert(av.subrange(0, i + 1).drop_last() =~= av.subrange(0, i as int));
            assert(av.subrange(0, i + 1).last() == args@[i as int]@.map_values(
                |p: (String, String)| (p.0@, p.1@),
            ));
            if !arg_value.as_str().is_empty() {
                assert(arg_value@.len() != 0);
                out.push(param);
                out.push(arg_value);
                assert(out@.map_values(|a: String| a@) =~= prev.push(param@).push(arg_value@));
            } else {
                assert(arg_value@.len() == 0);
            }
            i = i + 1;
        }
        assert(av.subrange(0, args.len() as int) =~= av);
        CommandLine { program: literal("bash"), args: out }
    }

    /// The status and event that the end of the smart action's process gives.
    pub fn emit_terminal_event(success: bool) -> (r: (SmartActionStatus, UiEvent))
        ensures
            r == terminal_outcome(success),
    {
        if success {
            (SmartActionStatus::COMPLETED, UiEvent::WaitingStop)
        } else {
            (SmartActionStatus::FAILED, UiEvent::WaitingError)
        }
    }

    /// The command that sets the mouse cursor.
    pub fn set_mouse_cursor(mouse_cursor_type: &MouseCursorIcon) -> (r: CommandLine)
        ensures
            r@.program == "xsetroot"@,
            r@.args == cursor_args(*mouse_cursor_type),
    {
        mouse_cursor_command(mouse_cursor_type)
    }

    /// The menu's state.
    pub fn menu_manager(&self) -> (r: &MenuManager)
        ensures
            r@ == self.menu(),
    {
        &self.menu_manager
    }

    /// The tray icon paths.
    pub fn tray_icon_manager(&self) -> (r: &TrayIconManager)
        ensures
            *r == self.tray(),
    {
        &self.tray_icon_manager
    }

    /// The sound settings.
    pub fn audio_player_manager(&self) -> (r: &AudioPlayerManager)
        ensures
            *r == self.audio(),
    {
        &self.audio_player_manager
    }
}

} // verus!
