//! Application-wide names.

use vstd::prelude::*;

use crate::text::owned;

verus! {

/// Bundle identifier, used for the config directory name.
pub const APP_ID: &'static str = "com.virex.app";

/// GitHub `owner/repo` whose releases carry the updates.
pub const GITHUB_REPO: &'static str = "phcodesage/Virex";

/// Keychain service under which secrets are stored.
pub const KEYCHAIN_SERVICE: &'static str = "com.virex.app";

/// Keychain account holding the DeepSeek API key.
pub const KEYCHAIN_ACCOUNT: &'static str = "deepseek-api-key";

/// Keychain account holding the Pro licence key.
pub const KEYCHAIN_LICENSE_ACCOUNT: &'static str = "virex-license";

/// Label of the floating overlay window.
pub const OVERLAY_LABEL: &'static str = "overlay";

/// Label of the settings window.
pub const SETTINGS_LABEL: &'static str = "settings";

/// Event name the stream events are emitted on.
pub const STREAM_EVENT: &'static str = "virex://stream";

/// Name of the settings file in the config directory.
pub const SETTINGS_FILE: &'static str = "settings.toml";

/// Name of the device-id file in the config directory.
pub const DEVICE_ID_FILE: &'static str = "device-id";

/// Paths are given as their components, from the root on.
pub open spec fn components(path: Seq<String>) -> Seq<Seq<char>> {
    path.map_values(|c: String| c@)
}

/// The user's config root, or the current directory (`.`) when the system
/// reports none.
pub open spec fn root_or_current(config_root: Option<String>) -> Seq<char> {
    match config_root {
        Some(r) => r@,
        None => "."@,
    }
}

/// The directory holding the settings: `<config root>/com.virex.app`, where
/// `config_root` is the system's config directory when it has one.
pub fn config_dir(config_root: Option<String>) -> (r: Vec<String>)
    ensures
        components(r@) == seq![root_or_current(config_root), APP_ID@],
{
    let root = match config_root {
        Some(r) => r,
        None => owned("."),
    };
    let mut path: Vec<String> = Vec::new();
    path.push(root);
    path.push(owned(APP_ID));
    assert(components(path@) =~= seq![root_or_current(config_root), APP_ID@]);
    path
}

/// The settings file: `settings.toml` in [`config_dir`].
pub fn settings_path(config_root: Option<String>) -> (r: Vec<String>)
    ensures
        components(r@) == seq![root_or_current(config_root), APP_ID@, SETTINGS_FILE@],
{
    let mut path = config_dir(config_root);
    let ghost dir = path@;
    path.push(owned(SETTINGS_FILE));
    assert(components(path@) =~= components(dir).push(SETTINGS_FILE@));
    path
}

/// The device-id file: `device-id` in [`config_dir`].
pub fn device_path(config_root: Option<String>) -> (r: Vec<String>)
    ensures
        components(r@) == seq![root_or_current(config_root), APP_ID@, DEVICE_ID_FILE@],
{
    let mut path = config_dir(config_root);
    let ghost dir = path@;
    path.push(owned(DEVICE_ID_FILE));
    assert(components(path@) =~= components(dir).push(DEVICE_ID_FILE@));
    path
}

} // verus!
