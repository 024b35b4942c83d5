use smart_actions::commands::{
    action_names_from_text, build_actions_metadata, build_startup_ui_metadata, fixed_print_config_command,
    fixed_startup_action_names, get_actions_command, print_config_command, startup_action_names,
    startup_script_path,
};
use smart_actions::domain::json_value::{action_name_from_item, action_names_from_value, JsonValue};
use smart_actions::domain::app_config::AppConfig;
use smart_actions::domain::language::Language;
use smart_actions::domain::startup_ui_metadata::StartupUIMetadata;

#[test]
fn script_path_and_commands() {
    let c = AppConfig {
        smart_actions_folder: "/opt/sa".to_string(),
        smart_actions_executable: "smart-actions.sh".to_string(),
    };
    let p = startup_script_path(&c);
    assert_eq!(p, "/opt/sa/smart-actions.sh");
    let g = get_actions_command(&p);
    assert_eq!((g.program.as_str(), g.args.clone()), ("/opt/sa/smart-actions.sh", vec!["get_actions_json".to_string()]));
    let pc = print_config_command(&p, "dictate_text");
    assert_eq!(pc.args, vec!["dictate_text".to_string(), "--print-config".to_string()]);
}

fn s(x: &str) -> JsonValue {
    JsonValue::String(x.to_string())
}

fn obj(members: Vec<(&str, JsonValue)>) -> JsonValue {
    JsonValue::Object(members.into_iter().map(|(k, v)| (k.to_string(), v)).collect())
}

#[test]
fn action_names_from_json() {
    let list = JsonValue::Array(vec![
        obj(vec![("action_name", s("dictate_text"))]),
        obj(vec![("other", JsonValue::Number("1".to_string()))]),
        obj(vec![("action_name", JsonValue::Number("7".to_string()))]),
        obj(vec![("x", JsonValue::Bool(true)), ("action_name", s("audio_to_text"))]),
        s("action_name"),
        JsonValue::Null,
    ]);
    assert_eq!(
        action_names_from_value(&list),
        Some(vec![Some("dictate_text".to_string()), None, None, Some("audio_to_text".to_string()), None, None])
    );
    let names = startup_action_names(Some(&list));
    assert_eq!(names, vec!["dictate_text".to_string(), "audio_to_text".to_string()]);
    assert!(startup_action_names(None).is_empty());
    let single = obj(vec![("action_name", s("x"))]);
    assert_eq!(action_names_from_value(&single), None);
    assert!(startup_action_names(Some(&single)).is_empty());
    assert!(startup_action_names(Some(&JsonValue::Array(vec![]))).is_empty());
    assert_eq!(action_name_from_item(&obj(vec![("action_name", s("a")), ("action_name", s("b"))])), Some("a".to_string()));
}

#[test]
fn fixed_startup_actions_and_metadata() {
    assert_eq!(fixed_startup_action_names(), vec!["dictate_text", "ai_reply_text", "audio_to_text"]);
    let c = fixed_print_config_command("dictate_text");
    assert_eq!(c.program, "bash");
    assert_eq!(c.args, vec!["/opt/FasterWhisper/smart-actions.sh", "dictate_text", "--print-config"]);
    let m = build_actions_metadata(vec![
        ("dictate_text".to_string(), "NAME=Dictate".to_string()),
        ("ai_reply_text".to_string(), "".to_string()),
        ("dictate_text".to_string(), "NAME=Again".to_string()),
    ]);
    let keys: Vec<&String> = m.actions.keys().collect();
    assert_eq!(keys, vec!["dictate_text", "ai_reply_text"]);
    assert_eq!(m.actions["dictate_text"].name, "Again");
    assert_eq!(m.actions["ai_reply_text"].name, "");
}

#[test]
fn startup_metadata_collects_configs_in_order() {
    let outputs = vec![
        ("dictate_text".to_string(), "NAME=Dictate\nDEFAULTS_model=medium".to_string()),
        ("ai_reply_text".to_string(), "NAME=Reply".to_string()),
        ("dictate_text".to_string(), "NAME=Dictate again".to_string()),
    ];
    let m = build_startup_ui_metadata(Ok(true), Language::ITALIAN, outputs);
    assert!(m.is_audio_enabled());
    assert_eq!(m.current_language(), "it");
    let keys: Vec<&String> = m.actions.keys().collect();
    assert_eq!(keys, vec!["dictate_text", "ai_reply_text"]);
    assert_eq!(m.actions["dictate_text"].name, "Dictate again");
    assert!(m.actions["dictate_text"].defaults.is_empty());
    assert_eq!(m.actions["ai_reply_text"].name, "Reply");

    let e = std::io::Error::new(std::io::ErrorKind::Other, "poisoned");
    let m = build_startup_ui_metadata(Err(e), Language::UNSET, vec![]);
    assert!(!m.is_audio_enabled());
    assert_eq!(m.current_language(), "");
    assert!(m.actions.is_empty());
}

#[test]
fn startup_metadata_new_is_empty() {
    let m = StartupUIMetadata::new(false, "en".to_string());
    assert!(!m.is_audio_enabled());
    assert_eq!(m.current_language(), "en");
    assert!(m.actions.is_empty());
}

#[test]
fn action_names_read_from_json_text() {
    let names = action_names_from_text(
        r#"[{"action_name":"dictate_text"},{"other":1},{"action_name":7},{"action_name":"audio_to_text","x":true}]"#,
    );
    assert_eq!(names, vec!["dictate_text".to_string(), "audio_to_text".to_string()]);
    assert!(action_names_from_text("not json").is_empty());
    assert!(action_names_from_text("").is_empty());
    assert!(action_names_from_text(r#"{"action_name":"x"}"#).is_empty());
    assert!(action_names_from_text("[]").is_empty());
    assert_eq!(action_names_from_text(r#" [ {"action_name": "a b"} , null, "s", [1] ] "#), vec!["a b".to_string()]);
}
