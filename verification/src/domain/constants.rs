//! Names and places that the application's parts share.
use vstd::prelude::*;

verus! {

/// Folder, relative to the application's resources, that holds the sound files.
pub const AUDIO_FOLDER: &'static str = "audio";


/// Events sent to the user interface.
pub const EVENT_TO_UI_NEXT_SMART_ACTION: &'static str = "smart_action_next";
pub const EVENT_TO_UI_PREVIOUS_SMART_ACTION: &'static str = "smart_action_previous";
pub const EVENT_TO_UI_RECORDING_START: &'static str = "smart_action_recording_start";
pub const EVENT_TO_UI_WAITING_START: &'static str = "smart_action_waiting_start";
pub const EVENT_TO_UI_WAITING_STOP: &'static str = "smart_action_waiting_stop";
pub const EVENT_TO_UI_WAITING_ERROR: &'static str = "smart_action_waiting_error";
pub const EVENT_TO_UI_ENABLE_AUDIO_CHANGED: &'static str = "enable_audio_changed";
pub const EVENT_TO_UI_CHANGE_CURRENT_LANGUAGE_ACTION: &'static str = "change_current_language";

} // verus!
