pub mod audio_player_manager;
pub mod menu_action_state_manager;
pub mod tray_icon_manager;
pub mod smart_action_manager;
pub mod language_manager;
pub mod smart_action_state_manager;
pub mod config_manager;
pub mod menu_command;
