//! User settings: the model, the defaults, and what changes when they are saved.

use vstd::prelude::*;

use crate::text::owned;

verus! {

/// The default system prompt used to steer the rewrite.
pub const DEFAULT_SYSTEM_PROMPT: &'static str = "You are an expert writing assistant.\n\nRules:\n- Preserve the original meaning.\n- Never explain your changes.\n- Return ONLY the rewritten text.\n- Improve grammar and clarity.\n- Preserve links and markdown.\n- Keep emojis and formatting.";

/// The default model id.
pub const DEFAULT_MODEL: &'static str = "deepseek-chat";

/// The default trigger shortcut (Tauri accelerator syntax; `Super` is ⌘ on macOS).
pub const DEFAULT_SHORTCUT: &'static str = "Super+Shift+1";

/// The default API base URL.
pub const DEFAULT_BASE_URL: &'static str = "https://api.deepseek.com";

/// The default translation target language.
pub const DEFAULT_TARGET_LANG: &'static str = "en";

/// The IEEE-754 bits of the default sampling temperature, `0.2f32`.
pub const DEFAULT_TEMPERATURE_BITS: u32 = 0x3E4C_CCCD;

/// The user-facing theme preference.
#[derive(Clone, Copy, Debug, PartialEq, Eq, Structural)]
pub enum Theme {
    System,
    Light,
    Dark,
}

/// Persisted application settings. The sampling temperature is an `f32` on the
/// wire; it is carried here by its bit pattern.
#[derive(Clone, Debug)]
pub struct Settings {
    /// DeepSeek model id. The API key is stored separately.
    pub model: String,
    /// Bits of the `f32` sampling temperature (`f32::to_bits`).
    pub temperature_bits: u32,
    pub system_prompt: String,
    /// Tauri accelerator string, e.g. `CmdOrCtrl+Shift+P`.
    pub shortcut: String,
    pub launch_at_login: bool,
    pub auto_replace: bool,
    pub auto_copy: bool,
    pub show_notifications: bool,
    pub theme: Theme,
    pub timeout_secs: u64,
    pub max_retries: u32,
    /// Base URL of the rewrite API.
    pub base_url: String,
    /// Language that translations go into.
    pub target_lang: String,
    /// Whether a translation is refined by the rewrite model afterwards.
    pub paraphrase_translation: bool,
}

/// The field-by-field content of the default settings.
pub open spec fn is_default_settings(s: Settings) -> bool {
    &&& s.model@ == DEFAULT_MODEL@
    &&& s.temperature_bits == DEFAULT_TEMPERATURE_BITS
    &&& s.system_prompt@ == DEFAULT_SYSTEM_PROMPT@
    &&& s.shortcut@ == DEFAULT_SHORTCUT@
    &&& !s.launch_at_login
    &&& s.auto_replace
    &&& !s.auto_copy
    &&& s.show_notifications
    &&& s.theme == Theme::System
    &&& s.timeout_secs == 30
    &&& s.max_retries == 1
    &&& s.base_url@ == DEFAULT_BASE_URL@
    &&& s.target_lang@ == DEFAULT_TARGET_LANG@
    &&& s.paraphrase_translation
}

/// Two settings values with equal content.
pub open spec fn same_settings(a: Settings, b: Settings) -> bool {
    &&& a.model@ == b.model@
    &&& a.temperature_bits == b.temperature_bits
    &&& a.system_prompt@ == b.system_prompt@
    &&& a.shortcut@ == b.shortcut@
    &&& a.launch_at_login == b.launch_at_login
    &&& a.auto_replace == b.auto_replace
    &&& a.auto_copy == b.auto_copy
    &&& a.show_notifications == b.show_notifications
    &&& a.theme == b.theme
    &&& a.timeout_secs == b.timeout_secs
    &&& a.max_retries == b.max_retries
    &&& a.base_url@ == b.base_url@
    &&& a.target_lang@ == b.target_lang@
    &&& a.paraphrase_translation == b.paraphrase_translation
}

impl Default for Settings {
    fn default() -> (r: Settings)
        ensures
            is_default_settings(r),
    {
        Settings {
            model: owned(DEFAULT_MODEL),
            temperature_bits: DEFAULT_TEMPERATURE_BITS,
            system_prompt: owned(DEFAULT_SYSTEM_PROMPT),
            shortcut: owned(DEFAULT_SHORTCUT),
            launch_at_login: false,
            auto_replace: true,
            auto_copy: false,
            show_notifications: true,
            theme: Theme::System,
            timeout_secs: 30,
            max_retries: 1,
            base_url: owned(DEFAULT_BASE_URL),
            target_lang: owned(DEFAULT_TARGET_LANG),
            paraphrase_translation: true,
        }
    }
}

/// What saving new settings has to apply beyond storing them.
pub struct SettingsChange {
    /// Register the new shortcut (it changed and the hotkey is not paused).
    pub reregister_shortcut: bool,
    /// Turn launch-at-login on or off, when that preference changed.
    pub autostart: Option<bool>,
}

impl Settings {
    /// An equal copy of these settings.
    pub fn duplicate(&self) -> (r: Settings)
        ensures
            r == *self,
    {
        Settings {
            model: self.model.clone(),
            temperature_bits: self.temperature_bits,
            system_prompt: self.system_prompt.clone(),
            shortcut: self.shortcut.clone(),
            launch_at_login: self.launch_at_login,
            auto_replace: self.auto_replace,
            auto_copy: self.auto_copy,
            show_notifications: self.show_notifications,
            theme: self.theme,
            timeout_secs: self.timeout_secs,
            max_retries: self.max_retries,
            base_url: self.base_url.clone(),
            target_lang: self.target_lang.clone(),
            paraphrase_translation: self.paraphrase_translation,
        }
    }

    /// The settings to run with after loading: the stored ones when the file
    /// was present and well-formed, the defaults otherwise.
    pub fn from_loaded(loaded: Option<Settings>) -> (r: Settings)
        ensures
            match loaded {
                Some(s) => r == s,
                None => is_default_settings(r),
            },
    {
        match loaded {
            Some(s) => s,
            None => Settings::default(),
        }
    }

    /// Base URL of the rewrite API.
    pub fn api_base(&self) -> (r: &str)
        ensures
            r@ == self.base_url@,
    {
        self.base_url.as_str()
    }

    /// What has to happen when `next` replaces `self` as the saved settings while
    /// the hotkey is `paused` or not.
    pub fn change_to(&self, next: &Settings, paused: bool) -> (r: SettingsChange)
        ensures
            r.reregister_shortcut == (next.shortcut@ != self.shortcut@ && !paused),
            r.autostart == (if next.launch_at_login != self.launch_at_login {
                Some(next.launch_at_login)
            } else {
                None
            }),
    {
        let reregister_shortcut = next.shortcut != self.shortcut && !paused;
        let autostart = if next.launch_at_login != self.launch_at_login {
            Some(next.launch_at_login)
        } else {
            None
        };
        SettingsChange { reregister_shortcut, autostart }
    }
}

} // verus!
