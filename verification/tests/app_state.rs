use virex::notify::send;
use virex::pipeline;
use virex::deepseek::{Delta, DeepSeekError, SseFrame, StreamChoice, StreamChunk};
use virex::events::StreamEvent;
use virex::pipeline::{
    finish_translation, retry, rewrite, translate, CaptureStep, OverlayStep,
    RewriteStart, SourceStep, TriggerStep, ACCESS_BODY, ACCESS_TITLE, CAPTURE_TITLE,
    NO_API_KEY_MESSAGE,
};
use virex::selection::{capture_selection, CaptureError};
use virex::settings::{Settings, Theme, DEFAULT_TEMPERATURE_BITS};
use virex::state::AppState;
use virex::translator::{TranslateError, TranslationResult};
use virex::tray::{handle_menu, MenuEffect};

fn s(x: &str) -> String {
    x.to_string()
}

fn chunk(text: &str) -> SseFrame {
    SseFrame {
        data: s("{}"),
        chunk: Some(StreamChunk { choices: vec![StreamChoice { delta: Delta { content: Some(s(text)) } }] }),
    }
}

#[test]
fn default_settings() {
    let d = Settings::default();
    assert_eq!(d.model, "deepseek-chat");
    assert_eq!(f32::from_bits(d.temperature_bits), 0.2f32);
    assert_eq!(DEFAULT_TEMPERATURE_BITS, 0.2f32.to_bits());
    assert!(d.system_prompt.starts_with("You are an expert writing assistant."));
    assert_eq!(d.shortcut, "Super+Shift+1");
    assert!(!d.launch_at_login && d.auto_replace && !d.auto_copy && d.show_notifications);
    assert_eq!(d.theme, Theme::System);
    assert_eq!((d.timeout_secs, d.max_retries), (30, 1));
    assert_eq!(d.base_url, "https://api.deepseek.com");
    assert_eq!(d.target_lang, "en");
    assert!(d.paraphrase_translation);
    assert_eq!(d.api_base(), "https://api.deepseek.com");
}

#[test]
fn loaded_settings_fall_back_to_defaults() {
    let mut custom = Settings::default();
    custom.model = s("other");
    assert_eq!(Settings::from_loaded(Some(custom)).model, "other");
    assert_eq!(Settings::from_loaded(None).model, "deepseek-chat");
}

#[test]
fn saving_settings_reregisters_and_toggles_autostart() {
    let old = Settings::default();
    let mut new = old.duplicate();
    new.shortcut = s("CmdOrCtrl+Shift+P");
    new.launch_at_login = true;
    let change = old.change_to(&new, false);
    assert!(change.reregister_shortcut);
    assert_eq!(change.autostart, Some(true));
    let paused = old.change_to(&new, true);
    assert!(!paused.reregister_shortcut);
    let same = old.change_to(&old.duplicate(), false);
    assert!(!same.reregister_shortcut);
    assert_eq!(same.autostart, None);
}

#[test]
fn state_reads_back_writes() {
    let mut st = AppState::new(Settings::default());
    assert_eq!(st.last_selection(), None);
    assert_eq!(st.frontmost_pid(), None);
    assert!(!st.is_paused());
    st.set_last_selection(Some(s("hello")));
    st.set_frontmost_pid(Some(42));
    st.set_paused(true);
    let mut changed = Settings::default();
    changed.auto_copy = true;
    st.set_settings(changed);
    assert_eq!(st.last_selection(), Some(s("hello")));
    assert_eq!(st.frontmost_pid(), Some(42));
    assert!(st.is_paused());
    assert!(st.settings().auto_copy);
}

#[test]
fn pause_and_resume_gate_the_hotkey() {
    let mut st = AppState::new(Settings::default());
    assert!(matches!(handle_menu(&mut st, "pause"), MenuEffect::UnregisterShortcuts));
    assert!(matches!(pipeline::trigger(&st), TriggerStep::Ignored));
    match handle_menu(&mut st, "resume") {
        MenuEffect::RegisterShortcut(a) => assert_eq!(a, "Super+Shift+1"),
        _ => panic!("resume registers the shortcut"),
    }
    assert!(matches!(pipeline::trigger(&st), TriggerStep::LocateSource(_)));
    assert!(matches!(handle_menu(&mut st, "open_settings"), MenuEffect::OpenSettings));
    assert!(matches!(handle_menu(&mut st, "check_updates"), MenuEffect::CheckUpdates));
    assert!(matches!(handle_menu(&mut st, "quit"), MenuEffect::Quit));
    assert!(matches!(handle_menu(&mut st, "other"), MenuEffect::Nothing));
    assert!(!st.is_paused());
}

#[test]
fn trigger_without_access_notifies() {
    let mut st = AppState::new(Settings::default());
    let source = match pipeline::trigger(&st) {
        TriggerStep::LocateSource(p) => p,
        TriggerStep::Ignored => panic!("not paused"),
    };
    match source.on_source(&mut st, Some(7), false) {
        SourceStep::NeedsAccess { notice } => {
            let n = notice.unwrap();
            assert_eq!(n.title, ACCESS_TITLE);
            assert_eq!(n.body, ACCESS_BODY);
        }
        SourceStep::ShowOverlay(_) => panic!("access is missing"),
    }
    assert_eq!(st.frontmost_pid(), Some(7));
    let mut quiet = Settings::default();
    quiet.show_notifications = false;
    assert!(send(&quiet, "t", "b").is_none());
}

#[test]
fn trigger_captures_and_rewrites() {
    let mut st = AppState::new(Settings::default());
    let source = match pipeline::trigger(&st) {
        TriggerStep::LocateSource(p) => p,
        TriggerStep::Ignored => panic!("not paused"),
    };
    let overlay = match source.on_source(&mut st, None, true) {
        SourceStep::ShowOverlay(p) => p,
        SourceStep::NeedsAccess { .. } => panic!("access granted"),
    };
    let capture = match overlay.on_overlay(true) {
        OverlayStep::Capture(p) => p,
        OverlayStep::Stop => panic!("overlay shown"),
    };
    match capture.on_capture(&mut st, Ok(s("teh text"))) {
        CaptureStep::Rewrite(t) => assert_eq!(t, "teh text"),
        CaptureStep::Failed { .. } => panic!("captured"),
    }
    assert_eq!(retry(&st), Some(s("teh text")));
}

#[test]
fn failed_capture_keeps_last_selection() {
    let mut st = AppState::new(Settings::default());
    st.set_last_selection(Some(s("before")));
    let capture = match pipeline::trigger(&st) {
        TriggerStep::LocateSource(p) => match p.on_source(&mut st, None, true) {
            SourceStep::ShowOverlay(o) => match o.on_overlay(true) {
                OverlayStep::Capture(c) => c,
                OverlayStep::Stop => panic!(),
            },
            SourceStep::NeedsAccess { .. } => panic!(),
        },
        TriggerStep::Ignored => panic!(),
    };
    match capture.on_capture(&mut st, Err(CaptureError::Unchanged)) {
        CaptureStep::Failed { notice } => assert_eq!(notice.unwrap().title, CAPTURE_TITLE),
        CaptureStep::Rewrite(_) => panic!("nothing captured"),
    }
    assert_eq!(retry(&st), Some(s("before")));
}

#[test]
fn overlay_failure_stops() {
    let mut st = AppState::new(Settings::default());
    if let TriggerStep::LocateSource(p) = pipeline::trigger(&st) {
        if let SourceStep::ShowOverlay(o) = p.on_source(&mut st, None, true) {
            assert!(matches!(o.on_overlay(false), OverlayStep::Stop));
            return;
        }
    }
    panic!("expected the overlay step");
}

#[test]
fn capture_rules() {
    assert_eq!(capture_selection(Some(s("old")), Some(s("new"))).ok(), Some(s("new")));
    assert!(matches!(capture_selection(Some(s("same")), Some(s("same"))), Err(CaptureError::Unchanged)));
    assert!(matches!(capture_selection(None, Some(s(" \n"))), Err(CaptureError::NothingSelected)));
    assert!(matches!(capture_selection(Some(s("x")), None), Err(CaptureError::NothingSelected)));
    assert_eq!(capture_selection(None, Some(s("fresh"))).ok(), Some(s("fresh")));
}

#[test]
fn rewrite_without_key() {
    match rewrite(s("abc"), None, &Settings::default()) {
        RewriteStart::NoKey { start, error } => {
            assert!(matches!(start, StreamEvent::Start { original } if original == "abc"));
            assert!(matches!(error, StreamEvent::Error { message } if message == NO_API_KEY_MESSAGE));
        }
        RewriteStart::Stream { .. } => panic!("no key"),
    }
}

#[test]
fn rewrite_done_carries_what_was_shown() {
    let mut settings = Settings::default();
    settings.auto_copy = true;
    let mut run = match rewrite(s("abc"), Some(s("sk-9")), &settings) {
        RewriteStart::Stream { start, plan, run } => {
            assert!(matches!(start, StreamEvent::Start { original } if original == "abc"));
            assert_eq!(plan.api_key, "sk-9");
            assert_eq!(plan.input, "abc");
            assert_eq!(plan.url, "https://api.deepseek.com/chat/completions");
            run
        }
        RewriteStart::NoKey { .. } => panic!("key present"),
    };
    let mut deltas = String::new();
    for f in [chunk("Ab"), chunk(""), chunk("c."), SseFrame { data: s("[DONE]"), chunk: None }] {
        let (next, step) = run.on_frame(&f);
        run = next;
        if let Some(StreamEvent::Delta { text }) = step.event {
            deltas.push_str(&text);
        }
        if step.stop {
            break;
        }
    }
    let end = run.on_end();
    assert_eq!(deltas, "Abc.");
    assert!(matches!(end.event, StreamEvent::Done { full } if full == "Abc."));
    assert_eq!(end.clipboard.as_deref(), Some("Abc."));
}

#[test]
fn rewrite_failures_become_error_events() {
    let run = match rewrite(s("abc"), Some(s("k")), &Settings::default()) {
        RewriteStart::Stream { run, .. } => run,
        RewriteStart::NoKey { .. } => panic!(),
    };
    let end = run.on_end();
    assert!(matches!(end.event, StreamEvent::Error { message } if message == "malformed response from API"));
    assert!(end.clipboard.is_none());
    let run = match rewrite(s("abc"), Some(s("k")), &Settings::default()) {
        RewriteStart::Stream { run, .. } => run,
        RewriteStart::NoKey { .. } => panic!(),
    };
    let end = run.on_failure(DeepSeekError::Timeout);
    assert!(matches!(end.event, StreamEvent::Error { message } if message == "request timed out"));
}

#[test]
fn translate_uses_configured_target_and_copies() {
    let mut settings = Settings::default();
    settings.target_lang = s("de");
    let run = translate(s("hola"), None, &settings);
    assert_eq!(run.target_lang, "de");
    assert!(matches!(run.start, StreamEvent::Start { original } if original == "hola"));
    assert_eq!(translate(s("x"), Some(s("fr")), &settings).target_lang, "fr");
    let res = TranslationResult {
        success: true,
        translation: s("Hallo"),
        raw_translation: s("hallo"),
        detected_language: s("es"),
        target_language: s("de"),
    };
    let end = finish_translation(Ok(res), true);
    assert!(matches!(end.event, StreamEvent::Done { full } if full == "Hallo"));
    assert_eq!(end.clipboard.as_deref(), Some("Hallo"));
    let end = finish_translation(Err(TranslateError::EmptyText), true);
    assert!(matches!(end.event, StreamEvent::Error { message } if message == "No text provided"));
    assert!(end.clipboard.is_none());
}
