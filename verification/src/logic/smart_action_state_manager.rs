use crate::domain::smart_action::{SmartAction, SmartActionState};
use vstd::prelude::*;

verus! {

/// Holds the state of the current smart action.
pub struct SmartActionStateManager {
    pub smart_action_state: SmartActionState,
}

impl SmartActionStateManager {
    pub fn new(smart_action: SmartAction) -> (r: Self)
        ensures
            r.smart_action_state.value == smart_action.value,
            r.smart_action_state.args == smart_action.args,
    {
        SmartActionStateManager { smart_action_state: SmartActionState::new(smart_action) }
    }

    /// Replaces the current smart action.
    pub fn change_smart_action(&mut self, new_smart_action: SmartAction)
        ensures
            final(self).smart_action_state.value == new_smart_action.value,
            final(self).smart_action_state.args == new_smart_action.args,
    {
        self.smart_action_state = SmartActionState::new(new_smart_action);
    }
}

} // verus!
