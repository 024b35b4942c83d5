use smart_actions::domain::app_config::AppConfig;
use smart_actions::domain::audio::Audio;
use smart_actions::domain::mouse_cursor_icon::MouseCursorIcon;
use smart_actions::domain::smart_action::SmartAction;
use smart_actions::domain::actions_metadata::ActionsMetadata;
use smart_actions::domain::{ActionsMetadata as LegacyActionsMetadata, AppConfig as LegacyAppConfig};
use smart_actions::logic::audio_player_manager::AudioPlayerManager;
use smart_actions::logic::config_manager::{app_config_from_path, ConfigError, ConfigManager};
use smart_actions::logic::menu_action_state_manager::MenuManager;
use smart_actions::logic::smart_action_state_manager::SmartActionStateManager;
use smart_actions::logic::tray_icon_manager::{AppIcon, TrayIconManager};

fn config(folder: &str) -> AppConfig {
    AppConfig {
        smart_actions_folder: folder.to_string(),
        smart_actions_executable: "smart-actions.sh".to_string(),
    }
}

fn owned(v: &[&str]) -> Vec<String> {
    v.iter().map(|s| s.to_string()).collect()
}

#[test]
fn audio_files_and_cursor_names() {
    assert_eq!(Audio::START.file(), "audio/start.mp3");
    assert_eq!(Audio::STOP.file(), "audio/stop.mp3");
    assert_eq!(MouseCursorIcon::DEFAULT.value(), "left_ptr");
    assert_eq!(MouseCursorIcon::WAITING.value(), "watch");
}

#[test]
fn audio_player_manager_flag_reads_back() {
    let mut a = AudioPlayerManager::new(config("/x"), true);
    assert_eq!(a.is_audio_enabled().unwrap(), true);
    assert!(a.set_audio_enabled(false).is_ok());
    assert_eq!(a.is_audio_enabled().unwrap(), false);
    assert!(a.set_audio_enabled(true).is_ok());
    assert_eq!(a.is_audio_enabled().unwrap(), true);
}

#[test]
fn audio_player_manager_commands() {
    let mut a = AudioPlayerManager::new(config("/x"), true);
    let c = a.play_sound_from_text("hello", "it").unwrap();
    assert_eq!(c.program, "bash");
    assert_eq!(
        c.args,
        owned(&["/x/smart-actions.sh", "text_to_speech", "--text", "hello", "--language", "it"])
    );
    let c = a.play_sound_from_text("hello", " \t").unwrap();
    assert_eq!(c.args, owned(&["/x/smart-actions.sh", "text_to_speech", "--text", "hello"]));
    let c = a.play_sound_for_smart_action("dictate_text").unwrap();
    assert_eq!(c.args[3], "dictate_text");
    assert_eq!(c.args[5], "en");
    let c = a.play_audio_file(Audio::START);
    assert_eq!(c.program, "ffplay");
    assert_eq!(c.args, owned(&["-v", "0", "-nodisp", "-autoexit", "audio/start.mp3"]));
    a.set_audio_enabled(false).unwrap();
    assert!(a.play_sound_from_text("hello", "en").is_none());
    assert!(a.play_sound_for_smart_action("dictate_text").is_none());
}

#[test]
fn menu_manager_items_follow_action_state() {
    let mut m = MenuManager::new("Dictate Text".to_string(), true, false, false);
    assert_eq!(m.action_name_text(), "Dictate Text");
    assert!(!m.is_action_started());
    m.set_action_started();
    assert!(m.is_action_started() && !m.is_start_enabled() && m.is_stop_enabled());
    assert!(m.is_start_enabled() != m.is_stop_enabled());
    m.set_action_stopped();
    assert!(!m.is_action_started() && m.is_start_enabled() && !m.is_stop_enabled());
    m.set_vocal_audio_menu_item_enabled(true);
    assert!(m.is_vocal_audio_enabled());
    m.set_action_name_text("Other".to_string());
    assert_eq!(m.action_name_text(), "Other");
    assert!(m.is_vocal_audio_enabled());
}

#[test]
fn tray_icons() {
    assert_eq!(AppIcon::all_variants(), &[AppIcon::DEFAULT, AppIcon::RECORDING, AppIcon::WAITING]);
    assert_eq!(AppIcon::DEFAULT.relative_icon_path(), "icons/normal.ico");
    assert_eq!(AppIcon::RECORDING.relative_icon_path(), "icons/recording.ico");
    assert_eq!(AppIcon::WAITING.relative_icon_path(), "icons/waiting.ico");
    let t = TrayIconManager::new(owned(&["/a.ico", "/b.ico", "/c.ico"]));
    assert_eq!(t.show_default_icon(), Ok("/a.ico".to_string()));
    assert_eq!(t.show_recording_icon(), Ok("/b.ico".to_string()));
    assert_eq!(t.show_waiting_icon(), Ok("/c.ico".to_string()));
}

#[test]
fn config_from_which_output() {
    let c = ConfigManager::new();
    let r = c.read_config(true, b"/usr/local/bin/smart-actions.sh\n".to_vec()).unwrap();
    assert_eq!(r.smart_actions_folder, "/usr/local/bin");
    assert_eq!(r.smart_actions_executable, "smart-actions.sh");
    let r = c.read_config(true, b"  tools/smart-actions.sh  ".to_vec()).unwrap();
    assert_eq!(r.smart_actions_folder, "tools");
    let r = c.read_config(true, b"smart-actions.sh".to_vec()).unwrap();
    assert_eq!(r.smart_actions_folder, "");
    assert_eq!(r.smart_actions_executable, "smart-actions.sh");
}

#[test]
fn config_errors() {
    let c = ConfigManager::new();
    assert_eq!(c.read_config(false, b"/usr/bin/smart-actions.sh".to_vec()).unwrap_err(), ConfigError::NotFound);
    assert_eq!(c.read_config(true, b" \n".to_vec()).unwrap_err(), ConfigError::NotFound);
    assert_eq!(c.read_config(true, vec![0xff, 0xfe]).unwrap_err(), ConfigError::InvalidData);
    assert_eq!(c.read_config(true, b"/".to_vec()).unwrap_err(), ConfigError::NoFileName("/".to_string()));
    assert_eq!(c.read_config(true, b"/usr/..".to_vec()).unwrap_err(), ConfigError::NoFileName("/usr/..".to_string()));
    assert_eq!(
        app_config_from_path("x", Some("x".to_string()), None).unwrap_err(),
        ConfigError::NoFolder("x".to_string())
    );
    let ok = app_config_from_path("/d/x", Some("x".to_string()), Some("/d".to_string())).unwrap();
    assert_eq!((ok.smart_actions_folder.as_str(), ok.smart_actions_executable.as_str()), ("/d", "x"));
}

#[test]
fn smart_action_state_manager_replaces_state() {
    let sa = |v: &str| SmartAction {
        name: "n".to_string(),
        value: v.to_string(),
        description: String::new(),
        args: vec![vec![("arg".to_string(), "-x".to_string())]],
    };
    let mut m = SmartActionStateManager::new(sa("one"));
    assert_eq!(m.smart_action_state.value, "one");
    m.change_smart_action(sa("two"));
    assert_eq!(m.smart_action_state.value, "two");
    assert_eq!(m.smart_action_state.args.len(), 1);
}

#[test]
fn metadata_constructors() {
    let m = ActionsMetadata::new(true);
    assert!(m.is_audio_enabled);
    assert!(m.actions.is_empty());
    assert!(LegacyActionsMetadata::new().actions.is_empty());
    let legacy = LegacyAppConfig { faster_whisper_folder: "/opt/FasterWhisper".to_string() };
    assert_eq!(legacy.faster_whisper_folder, "/opt/FasterWhisper");
}
