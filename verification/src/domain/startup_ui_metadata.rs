use crate::domain::action_config::ActionConfig;
use crate::ordered_map::{action_map_entries, action_map_insert, entries_insert, new_action_map};
use indexmap::IndexMap;
use vstd::prelude::*;

verus! {

/// What the user interface needs at startup: the current language's code,
/// whether sounds are enabled, and the configuration of each action by name.
pub struct StartupUIMetadata {
    current_language: String,
    is_audio_enabled: bool,
    pub actions: IndexMap<String, ActionConfig>,
}

impl StartupUIMetadata {
    pub closed spec fn language(&self) -> Seq<char> {
        self.current_language@
    }

    pub closed spec fn audio_enabled(&self) -> bool {
        self.is_audio_enabled
    }

    /// The configurations by action name, in order.
    pub closed spec fn action_entries(&self) -> Seq<(Seq<char>, ActionConfig)> {
        action_map_entries(self.actions)
    }

    /// No actions yet.
    pub fn new(is_audio_enabled: bool, current_language: String) -> (r: Self)
        ensures
            r.audio_enabled() == is_audio_enabled,
            r.language() == current_language@,
            r.action_entries() == Seq::<(Seq<char>, ActionConfig)>::empty(),
    {
        StartupUIMetadata { current_language, actions: new_action_map(), is_audio_enabled }
    }

    /// Records the configuration of the action `name`.
    pub fn insert_action(&mut self, name: String, config: ActionConfig)
        ensures
            final(self).action_entries() == entries_insert(old(self).action_entries(), name@, config),
            final(self).language() == old(self).language(),
            final(self).audio_enabled() == old(self).audio_enabled(),
    {
        action_map_insert(&mut self.actions, name, config);
    }

    /// The current language's code.
    pub fn current_language(&self) -> (r: &String)
        ensures
            r@ == self.language(),
    {
        &self.current_language
    }

    /// Whether sounds are enabled.
    pub fn is_audio_enabled(&self) -> (r: bool)
        ensures
            r == self.audio_enabled(),
    {
        self.is_audio_enabled
    }
}

} // verus!
