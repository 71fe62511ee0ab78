//! The menu-bar menu: its items, and what choosing one does.

use vstd::prelude::*;

use crate::state::{AppState, AppStateView};
use crate::text::owned;

verus! {

/// Menu item ids.
pub const MENU_OPEN_SETTINGS: &'static str = "open_settings";
pub const MENU_PAUSE: &'static str = "pause";
pub const MENU_RESUME: &'static str = "resume";
pub const MENU_CHECK_UPDATES: &'static str = "check_updates";
pub const MENU_QUIT: &'static str = "quit";

/// What the caller does after a menu choice.
pub enum MenuEffect {
    OpenSettings,
    /// Remove every global shortcut.
    UnregisterShortcuts,
    /// Register this accelerator as the trigger shortcut.
    RegisterShortcut(String),
    CheckUpdates,
    Quit,
    /// Unknown item: nothing.
    Nothing,
}

/// Handle the menu item `id`. Pausing stops the hotkey; resuming turns it back
/// on with the configured shortcut. Nothing else changes the state.
pub fn handle_menu(state: &mut AppState, id: &str) -> (r: MenuEffect)
    ensures
        id@ == MENU_PAUSE@ ==> final(state)@ == (AppStateView { paused: true, ..old(state)@ })
            && r is UnregisterShortcuts,
        id@ == MENU_RESUME@ ==> final(state)@ == (AppStateView { paused: false, ..old(state)@ })
            && (r matches MenuEffect::RegisterShortcut(a) && a@ == old(state)@.settings.shortcut@),
        id@ != MENU_PAUSE@ && id@ != MENU_RESUME@ ==> final(state)@ == old(state)@,
        id@ == MENU_OPEN_SETTINGS@ ==> r is OpenSettings,
        id@ == MENU_CHECK_UPDATES@ ==> r is CheckUpdates,
        id@ == MENU_QUIT@ ==> r is Quit,
        id@ != MENU_PAUSE@ && id@ != MENU_RESUME@ && id@ != MENU_OPEN_SETTINGS@ && id@
            != MENU_CHECK_UPDATES@ && id@ != MENU_QUIT@ ==> r is Nothing,
{
    proof {
        reveal_strlit("open_settings");
        reveal_strlit("pause");
        reveal_strlit("resume");
        reveal_strlit("check_updates");
        reveal_strlit("quit");
        assert(MENU_OPEN_SETTINGS@[0] != MENU_CHECK_UPDATES@[0]);
        assert(MENU_OPEN_SETTINGS@.len() != MENU_PAUSE@.len());
        assert(MENU_OPEN_SETTINGS@.len() != MENU_RESUME@.len());
        assert(MENU_OPEN_SETTINGS@.len() != MENU_QUIT@.len());
        assert(MENU_PAUSE@.len() != MENU_RESUME@.len());
        assert(MENU_PAUSE@.len() != MENU_CHECK_UPDATES@.len());
        assert(MENU_PAUSE@.len() != MENU_QUIT@.len());
        assert(MENU_RESUME@.len() != MENU_CHECK_UPDATES@.len());
        assert(MENU_RESUME@.len() != MENU_QUIT@.len());
        assert(MENU_CHECK_UPDATES@.len() != MENU_QUIT@.len());
    }
    let item = owned(id);
    if item == owned(MENU_OPEN_SETTINGS) {
        MenuEffect::OpenSettings
    } else if item == owned(MENU_PAUSE) {
        state.set_paused(true);
        MenuEffect::UnregisterShortcuts
    } else if item == owned(MENU_RESUME) {
        state.set_paused(false);
        let settings = state.settings();
        MenuEffect::RegisterShortcut(settings.shortcut)
    } else if item == owned(MENU_CHECK_UPDATES) {
        MenuEffect::CheckUpdates
    } else if item == owned(MENU_QUIT) {
        MenuEffect::Quit
    } else {
        MenuEffect::Nothing
    }
}

} // verus!
