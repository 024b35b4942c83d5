//! The application's data: smart actions and their configuration, the
//! language, sounds, cursors and the settings read at startup.
pub mod action_config;
pub mod actions_metadata;
pub mod app_config;
pub mod audio;
pub mod command_line;
pub mod constants;
pub mod json_value;
pub mod language;
pub mod mouse_cursor_icon;
pub mod smart_action;
pub mod startup_ui_metadata;

pub use action_config::ActionConfig;

use crate::ordered_map::{action_map_entries, new_action_map};
use indexmap::IndexMap;
use vstd::prelude::*;

verus! {

/// Where the speech tools live (the older form of the settings).
#[derive(Debug)]
pub struct AppConfig {
    pub faster_whisper_folder: String,
}

/// The configuration of each action by name (the first form of the
/// startup metadata, without the sound setting). They keep the order in
/// which they were recorded; a hash map would leave that order open.
pub struct ActionsMetadata {
    pub actions: IndexMap<String, ActionConfig>,
}

impl ActionsMetadata {
    /// No actions yet.
    pub fn new() -> (r: Self)
        ensures
            action_map_entries(r.actions) == Seq::<(Seq<char>, ActionConfig)>::empty(),
    {
        ActionsMetadata { actions: new_action_map() }
    }
}

/// An action as the user interface first described it: name, value,
/// description and its arguments' maps, each as its key-value pairs.
pub struct Action {
    name: String,
    value: String,
    description: String,
    args: Vec<Vec<(String, String)>>,
}

} // verus!
