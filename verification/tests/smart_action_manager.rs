use smart_actions::domain::app_config::AppConfig;
use smart_actions::domain::audio::Audio;
use smart_actions::domain::command_line::CommandLine;
use smart_actions::domain::mouse_cursor_icon::MouseCursorIcon;
use smart_actions::domain::smart_action::{SmartAction, SmartActionStatus};
use smart_actions::logic::audio_player_manager::AudioPlayerManager;
use smart_actions::logic::menu_action_state_manager::MenuManager;
use smart_actions::logic::smart_action_manager::{sanitize, ProcessExit, SmartActionManager, UiEvent};
use smart_actions::logic::tray_icon_manager::TrayIconManager;

fn config() -> AppConfig {
    AppConfig {
        smart_actions_folder: "/opt/sa".to_string(),
        smart_actions_executable: "smart-actions.sh".to_string(),
    }
}

fn arg(pairs: &[(&str, &str)]) -> Vec<(String, String)> {
    pairs.iter().map(|(k, v)| (k.to_string(), v.to_string())).collect()
}

fn dictate() -> SmartAction {
    SmartAction {
        name: "Dictate Text".to_string(),
        value: "dictate_text".to_string(),
        description: "Record an audio and convert it to text.".to_string(),
        args: vec![
            arg(&[("arg", "-a"), ("audio_device", "hw:3,0")]),
            arg(&[("arg", "-m"), ("model", "medium")]),
            arg(&[("arg", "-l"), ("language", "")]),
        ],
    }
}

fn manager(audio: bool) -> SmartActionManager {
    SmartActionManager::new(
        config(),
        MenuManager::new("Dictate Text".to_string(), true, false, false),
        TrayIconManager::new(vec![
            "/r/icons/normal.ico".to_string(),
            "/r/icons/recording.ico".to_string(),
            "/r/icons/waiting.ico".to_string(),
        ]),
        AudioPlayerManager::new(config(), audio),
        dictate(),
    )
}

fn cmd(c: &CommandLine) -> (String, Vec<String>) {
    (c.program.clone(), c.args.clone())
}

fn owned(v: &[&str]) -> Vec<String> {
    v.iter().map(|s| s.to_string()).collect()
}

#[test]
fn build_cmd_skips_empty_values() {
    let m = manager(true);
    assert_eq!(
        cmd(&m.build_cmd_smart_action()),
        (
            "bash".to_string(),
            owned(&["/opt/sa/smart-actions.sh", "dictate_text", "-a", "hw:3,0", "-m", "medium"])
        )
    );
}

#[test]
fn build_cmd_sanitizes_text_for_text_to_speech_only() {
    let mut m = manager(true);
    let mut sa = dictate();
    sa.value = "text_to_speech".to_string();
    sa.args = vec![arg(&[("arg", "--text"), ("text", "It's $5\n\"ok\"")])];
    m.change_current_smart_action(sa);
    assert_eq!(
        cmd(&m.build_cmd_smart_action()).1,
        owned(&["/opt/sa/smart-actions.sh", "text_to_speech", "--text", "Its 5. ok"])
    );
    let mut sa = dictate();
    sa.value = "ai_reply_text".to_string();
    sa.args = vec![arg(&[("text", "It's $5"), ("arg", "--text")])];
    m.change_current_smart_action(sa);
    assert_eq!(
        cmd(&m.build_cmd_smart_action()).1,
        owned(&["/opt/sa/smart-actions.sh", "ai_reply_text", "--text", "It's $5"])
    );
}

#[test]
fn sanitize_formula() {
    assert_eq!(sanitize("a$b\"c'd\ne"), "abcd. e");
    assert_eq!(sanitize(""), "");
    assert_eq!(sanitize("\n\n"), ". . ");
}

#[test]
fn change_current_smart_action_updates_menu_text() {
    let mut m = manager(true);
    let mut sa = dictate();
    sa.name = "Audio To Text".to_string();
    m.change_current_smart_action(sa);
    assert_eq!(m.menu_manager().action_name_text(), "Audio To Text");
}

#[test]
fn start_stop_finish_cycle() {
    let mut m = manager(true);
    assert!(m.stop_current_smart_action().is_none());

    let plan = m.start_current_smart_action().expect("idle manager starts");
    assert_eq!(plan.tray_icon, Ok("/r/icons/normal.ico".to_string()));
    assert_eq!(plan.event, UiEvent::RecordingStart);
    assert_eq!(
        cmd(&plan.start_sound),
        ("ffplay".to_string(), owned(&["-v", "0", "-nodisp", "-autoexit", "audio/start.mp3"]))
    );
    assert_eq!(plan.smart_action.args[1], "dictate_text");
    assert!(m.menu_manager().is_action_started());
    assert!(!m.menu_manager().is_start_enabled());
    assert!(m.menu_manager().is_stop_enabled());

    assert!(m.start_current_smart_action().is_none());

    let end = m.stop_current_smart_action().expect("running action stops");
    assert_eq!(cmd(&end), ("bash".to_string(), owned(&["/opt/sa/smart-actions.sh", "end"])));
    assert!(m.menu_manager().is_vocal_audio_enabled());
    assert!(m.stop_current_smart_action().is_none());
    assert!(m.start_current_smart_action().is_none());

    let stop_plan = m.stop_command_finished(true).expect("end command completed");
    assert_eq!(stop_plan.tray_icon, Ok("/r/icons/waiting.ico".to_string()));
    assert_eq!(stop_plan.event, UiEvent::WaitingStart);
    assert_eq!(cmd(&stop_plan.cursor), ("xsetroot".to_string(), owned(&["-cursor_name", "watch"])));
    assert!(!m.menu_manager().is_action_started());
    assert!(m.menu_manager().is_start_enabled());
    assert!(!m.menu_manager().is_stop_enabled());

    let fin = m.finish_current_smart_action(ProcessExit::Exited { success: true }).unwrap();
    assert_eq!(fin.status, SmartActionStatus::COMPLETED);
    assert_eq!(fin.event, UiEvent::WaitingStop);
    assert_eq!(fin.tray_icon, Ok("/r/icons/normal.ico".to_string()));
    assert_eq!(cmd(&fin.cursor).1, owned(&["-cursor_name", "left_ptr"]));
    assert_eq!(cmd(&fin.stop_sound).1[4], "audio/stop.mp3");

    assert!(m.start_current_smart_action().is_some());
}

#[test]
fn failed_process_and_failed_wait() {
    let mut m = manager(false);
    m.start_current_smart_action().unwrap();
    let fin = m.finish_current_smart_action(ProcessExit::Exited { success: false }).unwrap();
    assert_eq!(fin.status, SmartActionStatus::FAILED);
    assert_eq!(fin.event, UiEvent::WaitingError);
    m.start_current_smart_action().unwrap();
    assert!(m.finish_current_smart_action(ProcessExit::WaitFailed).is_none());
    assert!(m.start_current_smart_action().is_some());
}

#[test]
fn stop_command_failure_changes_nothing() {
    let mut m = manager(true);
    m.start_current_smart_action().unwrap();
    m.stop_current_smart_action().unwrap();
    assert!(m.stop_command_finished(false).is_none());
    assert!(m.menu_manager().is_action_started());
    assert!(m.start_current_smart_action().is_none());
}

#[test]
fn emit_terminal_event_outcomes() {
    assert_eq!(
        SmartActionManager::emit_terminal_event(true),
        (SmartActionStatus::COMPLETED, UiEvent::WaitingStop)
    );
    assert_eq!(
        SmartActionManager::emit_terminal_event(false),
        (SmartActionStatus::FAILED, UiEvent::WaitingError)
    );
}

#[test]
fn vocal_audio_audio_flag_and_fix_issues() {
    let mut m = manager(true);
    m.start_current_smart_action().unwrap();
    m.stop_current_smart_action().unwrap();
    let c = m.stop_vocal_audio();
    assert_eq!(c.args, owned(&["/opt/sa/smart-actions.sh", "end_output_audio_vocal"]));
    assert!(!m.menu_manager().is_vocal_audio_enabled());

    assert_eq!(m.is_audio_enabled().unwrap(), true);
    assert_eq!(m.set_audio_enable(false), Some(UiEvent::EnableAudioChanged(false)));
    assert_eq!(m.is_audio_enabled().unwrap(), false);

    let cmds = m.try_to_fix_issues();
    let names = ["piper", "nerd-dictation", "whisper", "ffmpeg", "tgpt", "dotool", "smart-actions.sh"];
    assert_eq!(cmds.len(), names.len() + 1);
    for (c, n) in cmds.iter().zip(names.iter()) {
        assert_eq!(cmd(c), ("pkill".to_string(), owned(&["-9", "-f", n])));
    }
    assert_eq!(cmd(&cmds[7]), ("xsetroot".to_string(), owned(&["-cursor_name", "left_ptr"])));
}

#[test]
fn ui_events_names_and_messages() {
    assert_eq!(m_name(UiEvent::RecordingStart), ("smart_action_recording_start", "Start recording..."));
    assert_eq!(m_name(UiEvent::WaitingStart), ("smart_action_waiting_start", "Waiting response..."));
    assert_eq!(m_name(UiEvent::WaitingStop), ("smart_action_waiting_stop", "Stop waiting..."));
    assert_eq!(m_name(UiEvent::WaitingError), ("smart_action_waiting_error", "Error during waiting..."));
    assert_eq!(m_name(UiEvent::NextSmartAction), ("smart_action_next", ""));
    assert_eq!(m_name(UiEvent::PreviousSmartAction), ("smart_action_previous", ""));
    assert_eq!(m_name(UiEvent::EnableAudioChanged(true)).0, "enable_audio_changed");
    let m = manager(true);
    assert_eq!(m.change_with_next_smart_action(), UiEvent::NextSmartAction);
    assert_eq!(m.change_with_previous_smart_action(), UiEvent::PreviousSmartAction);
    assert_eq!(SmartActionManager::set_mouse_cursor(&MouseCursorIcon::WAITING).args[1], "watch");
    let _ = Audio::START;
}

fn m_name(e: UiEvent) -> (&'static str, &'static str) {
    (e.name(), e.message())
}
