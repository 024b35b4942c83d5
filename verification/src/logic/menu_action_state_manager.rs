use vstd::prelude::*;

verus! {

/// The state of the tray menu's action items: the text that names the
/// current action, whether the action is started, and which of the start,
/// stop and stop-vocal-audio items are enabled.
#[derive(Debug, Clone)]
pub struct MenuManager {
    action_name_text: String,
    start_enabled: bool,
    stop_enabled: bool,
    vocal_audio_enabled: bool,
    is_action_started: bool,
}

/// The menu's state as values.
pub struct MenuModel {
    pub action_name_text: Seq<char>,
    pub start_enabled: bool,
    pub stop_enabled: bool,
    pub vocal_audio_enabled: bool,
    pub is_action_started: bool,
}

impl View for MenuManager {
    type V = MenuModel;

    closed spec fn view(&self) -> MenuModel {
        MenuModel {
            action_name_text: self.action_name_text@,
            start_enabled: self.start_enabled,
            stop_enabled: self.stop_enabled,
            vocal_audio_enabled: self.vocal_audio_enabled,
            is_action_started: self.is_action_started,
        }
    }
}

/// The start item is enabled exactly when the action is not started, and
/// the stop item exactly when it is; so exactly one of them is enabled.
pub open spec fn items_follow_action_state(m: MenuModel) -> bool {
    m.start_enabled == !m.is_action_started && m.stop_enabled == m.is_action_started
}

impl MenuManager {
    /// A menu whose items show the given text and enabled states; the
    /// action is not started.
    pub fn new(
        action_name_text: String,
        start_enabled: bool,
        stop_enabled: bool,
        vocal_audio_enabled: bool,
    ) -> (r: Self)
        ensures
            r@ == (MenuModel {
                action_name_text: action_name_text@,
                start_enabled,
                stop_enabled,
                vocal_audio_enabled,
                is_action_started: false,
            }),
    {
        Self {
            action_name_text,
            start_enabled,
            stop_enabled,
            vocal_audio_enabled,
            is_action_started: false,
        }
    }

    /// Shows `text` as the current action's name.
    pub fn set_action_name_text(&mut self, text: String)
        ensures
            final(self)@ == (MenuModel { action_name_text: text@, ..old(self)@ }),
        no_unwind
    {
        self.action_name_text = text;
    }

    /// Marks the action as started: start disabled, stop enabled.
    pub fn set_action_started(&mut self)
        ensures
            final(self)@ == (MenuModel {
                is_action_started: true,
                start_enabled: false,
                stop_enabled: true,
                ..old(self)@
            }),
            final(self)@ == switched(MenuModel { is_action_started: true, ..old(self)@ }),
            items_follow_action_state(final(self)@),
        no_unwind
    {
        self.is_action_started = true;
        self.switch_action_state_in_menu();
    }

    /// Marks the action as stopped: start enabled, stop disabled.
    pub fn set_action_stopped(&mut self)
        ensures
            final(self)@ == (MenuModel {
                is_action_started: false,
                start_enabled: true,
                stop_enabled: false,
                ..old(self)@
            }),
            final(self)@ == switched(MenuModel { is_action_started: false, ..old(self)@ }),
            items_follow_action_state(final(self)@),
        no_unwind
    {
        self.is_action_started = false;
        self.switch_action_state_in_menu();
    }

    /// Enables or disables the stop-vocal-audio item.
    pub fn set_vocal_audio_menu_item_enabled(&mut self, enabled: bool)
        ensures
            final(self)@ == (MenuModel { vocal_audio_enabled: enabled, ..old(self)@ }),
        no_unwind
    {
        self.vocal_audio_enabled = enabled;
    }

    /// Sets the start and stop items from whether the action is started.
    fn switch_action_state_in_menu(&mut self)
        ensures
            final(self)@ == switched(old(self)@),
            items_follow_action_state(final(self)@),
            final(self)@.start_enabled != final(self)@.stop_enabled,
        no_unwind
    {
        self.start_enabled = !self.is_action_started;
        self.stop_enabled = self.is_action_started;
    }

    pub fn action_name_text(&self) -> (r: &String)
        ensures
            r@ == self@.action_name_text,
    {
        &self.action_name_text
    }

    pub fn is_start_enabled(&self) -> (r: bool)
        ensures
            r == self@.start_enabled,
    {
        self.start_enabled
    }

    pub fn is_stop_enabled(&self) -> (r: bool)
        ensures
            r == self@.stop_enabled,
    {
        self.stop_enabled
    }

    pub fn is_vocal_audio_enabled(&self) -> (r: bool)
        ensures
            r == self@.vocal_audio_enabled,
    {
        self.vocal_audio_enabled
    }

    pub fn is_action_started(&self) -> (r: bool)
        ensures
            r == self@.is_action_started,
    {
        self.is_action_started
    }
}

/// The menu once its start and stop items are set from whether the
/// action is started.
pub open spec fn switched(m: MenuModel) -> MenuModel {
    MenuModel { start_enabled: !m.is_action_started, stop_enabled: m.is_action_started, ..m }
}

/// Whatever the menu's state, setting the items from the action's state
/// enables the start item exactly when the action is not started and the
/// stop item exactly when it is — so exactly one of them — and changes
/// nothing else.
pub proof fn lemma_menu_items_follow_action_state(m: MenuModel)
    ensures
        items_follow_action_state(switched(m)),
        switched(m).start_enabled != switched(m).stop_enabled,
        switched(m).is_action_started == m.is_action_started,
        switched(m).action_name_text == m.action_name_text,
        switched(m).vocal_audio_enabled == m.vocal_audio_enabled,
{
}

} // verus!
