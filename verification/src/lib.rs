//! Virex: rewrite the selected text anywhere, right where you type.
//!
//! This crate holds the decisions of the assistant, each with a proved
//! contract: the settings and their defaults, the rewrite request to DeepSeek
//! with the user's own key and its streamed response, Google Translate
//! requests and responses, the translation and native-reply flows, the hotkey
//! pipeline and the events it sends, clipboard polling, the keychain and
//! device-id rules, the menu and the update dialogs.
//! The desktop shell that performs the I/O lives in `app/`.

use vstd::prelude::*;

pub mod config;
pub mod deepseek;
pub mod device;
pub mod events;
pub mod input;
pub mod json;
pub mod keychain;
pub mod notify;
pub mod pipeline;
pub mod selection;
pub mod settings;
pub mod state;
pub mod text;
pub mod translator;
pub mod tray;
pub mod updater;

verus! {

} // verus!
