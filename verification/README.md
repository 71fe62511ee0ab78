# Virex

A menu-bar writing assistant: highlight text in any app, press the shortcut,
and an improved version streams into a floating overlay; Enter pastes it over
the selection. It can also translate a selection (Google Translate, refined by
the rewrite model) and draft replies in the language of a message.

## Layout

- `src/` — the library, verified with Verus. Every decision the assistant
  makes, apart from where on screen the overlay is placed (floating-point
  geometry), stands here with its contract: settings and defaults
  (`settings`), the request to DeepSeek's chat-completion API with the user's
  own key, its error responses and the server-sent-event stream (`deepseek`),
  translation and native replies (`translator`), the hotkey pipeline and the
  events it emits (`pipeline`, `events`), clipboard polling and key chords
  (`input`), selection capture (`selection`), keychain and device-id rules
  (`keychain`, `device`), the menu (`tray`), update dialogs (`updater`),
  notifications (`notify`), shared state (`state`), config paths (`config`),
  decoding of response bodies into a JSON document model (`json`), the JSON
  text of overlay events, and text helpers (`text`).
- `app/` — the Tauri shell: windows, tray, global shortcut, clipboard and
  keystroke synthesis, HTTP and streaming, keychain and file access, and
  overlay placement. It asks the library what to do at each step and does it.
- `tests/` — executable tests of the library.
