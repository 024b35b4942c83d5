use crate::domain::action_config::ActionConfig;
use crate::ordered_map::{action_map_entries, new_action_map};
use indexmap::IndexMap;
use vstd::prelude::*;

verus! {

/// Whether sounds are enabled, and the configuration of each action by name.
pub struct ActionsMetadata {
    pub is_audio_enabled: bool,
    pub actions: IndexMap<String, ActionConfig>,
}

impl ActionsMetadata {
    /// No actions yet.
    pub fn new(is_audio_enabled: bool) -> (r: Self)
        ensures
            r.is_audio_enabled == is_audio_enabled,
            action_map_entries(r.actions) == Seq::<(Seq<char>, ActionConfig)>::empty(),
    {
        ActionsMetadata { actions: new_action_map(), is_audio_enabled }
    }
}

} // verus!
