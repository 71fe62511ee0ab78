//! Application state shared between the hotkey, the overlay and the menu.

use vstd::prelude::*;

use crate::settings::Settings;

verus! {

/// The content of the application state.
pub struct AppStateView {
    pub settings: Settings,
    /// The text captured from the frontmost app on the last hotkey press.
    pub last_selection: Option<Seq<char>>,
    /// PID of the app that was frontmost when the hotkey was last pressed.
    pub frontmost_pid: Option<i32>,
    /// When true, the hotkey is ignored.
    pub paused: bool,
}

/// Application state. The caller keeps it behind a lock.
pub struct AppState {
    settings: Settings,
    last_selection: Option<String>,
    frontmost_pid: Option<i32>,
    paused: bool,
}

impl View for AppState {
    type V = AppStateView;

    closed spec fn view(&self) -> AppStateView {
        AppStateView {
            settings: self.settings,
            last_selection: match self.last_selection {
                Some(s) => Some(s@),
                None => None,
            },
            frontmost_pid: self.frontmost_pid,
            paused: self.paused,
        }
    }
}

impl AppState {
    /// Fresh state running with `settings`: no selection, no source app, not paused.
    pub fn new(settings: Settings) -> (r: AppState)
        ensures
            r@ == (AppStateView {
                settings,
                last_selection: None,
                frontmost_pid: None,
                paused: false,
            }),
    {
        AppState { settings, last_selection: None, frontmost_pid: None, paused: false }
    }

    /// The current settings.
    pub fn settings(&self) -> (r: Settings)
        ensures
            r == self@.settings,
    {
        self.settings.duplicate()
    }

    /// Replace the settings.
    pub fn set_settings(&mut self, settings: Settings)
        ensures
            final(self)@ == (AppStateView { settings, ..old(self)@ }),
    {
        self.settings = settings;
    }

    /// The last captured selection.
    pub fn last_selection(&self) -> (r: Option<String>)
        ensures
            match r {
                Some(s) => self@.last_selection == Some(s@),
                None => self@.last_selection is None,
            },
    {
        match &self.last_selection {
            Some(s) => Some(s.clone()),
            None => None,
        }
    }

    /// Record the last captured selection.
    pub fn set_last_selection(&mut self, text: Option<String>)
        ensures
            final(self)@ == (AppStateView {
                last_selection: match text {
                    Some(s) => Some(s@),
                    None => None,
                },
                ..old(self)@
            }),
    {
        self.last_selection = text;
    }

    /// The PID of the app that was frontmost at the last trigger.
    pub fn frontmost_pid(&self) -> (r: Option<i32>)
        ensures
            r == self@.frontmost_pid,
    {
        self.frontmost_pid
    }

    /// Record the PID of the frontmost app.
    pub fn set_frontmost_pid(&mut self, pid: Option<i32>)
        ensures
            final(self)@ == (AppStateView { frontmost_pid: pid, ..old(self)@ }),
    {
        self.frontmost_pid = pid;
    }

    /// Whether the hotkey is paused.
    pub fn is_paused(&self) -> (r: bool)
        ensures
            r == self@.paused,
    {
        self.paused
    }

    /// Pause or resume the hotkey.
    pub fn set_paused(&mut self, paused: bool)
        ensures
            final(self)@ == (AppStateView { paused, ..old(self)@ }),
    {
        self.paused = paused;
    }
}

/// Each setter is read back by its getter, and leaves the other parts alone:
/// after `set_paused(p)`, `is_paused()` is `p`; after `set_frontmost_pid(q)`,
/// `frontmost_pid()` is `q`; after `set_last_selection(t)`, `last_selection()`
/// is `t`; after `set_settings(s)`, `settings()` is `s`.
pub proof fn lemma_state_reads_back_writes(
    s: AppStateView,
    settings: Settings,
    text: Option<Seq<char>>,
    pid: Option<i32>,
    paused: bool,
)
    ensures
        (AppStateView { settings, ..s }).settings == settings,
        (AppStateView { settings, ..s }).paused == s.paused,
        (AppStateView { last_selection: text, ..s }).last_selection == text,
        (AppStateView { last_selection: text, ..s }).settings == s.settings,
        (AppStateView { frontmost_pid: pid, ..s }).frontmost_pid == pid,
        (AppStateView { frontmost_pid: pid, ..s }).last_selection == s.last_selection,
        (AppStateView { paused, ..s }).paused == paused,
        (AppStateView { paused, ..s }).frontmost_pid == s.frontmost_pid,
{
}

} // verus!
