//! The "improve my selection" flow, triggered by the hotkey or a Retry
//! request, and the translation flow shown in the same overlay.
//!
//! Each step says what the caller does next (query the system, show the
//! overlay, copy the selection, send the request, emit an event) and takes
//! back what came of it.

use vstd::prelude::*;

use crate::deepseek::{
    concat, deepseek_error_text, fresh_progress, is_plan_for, rewrite_plan, DeepSeekError,
    FrameOutcome, RewritePlan, RewriteRequest, RewriteStream, SseFrame, StreamProgress,
};
use crate::events::StreamEvent;
use crate::notify::{notice_shown, send, Notice};
use crate::selection::CaptureError;
use crate::settings::Settings;
use crate::state::{AppState, AppStateView};
use crate::text::owned;
use crate::translator::{translate_error_text, TranslateError, TranslationResult};

verus! {

/// Title of the notice shown when Accessibility access is missing.
pub const ACCESS_TITLE: &'static str = "Accessibility required";

/// Body of the notice shown when Accessibility access is missing.
pub const ACCESS_BODY: &'static str = "Grant Virex access in System Settings, then try again.";

/// Title of the notice shown when no selection could be captured.
pub const CAPTURE_TITLE: &'static str = "Couldn't read the selection";

/// Body of the notice shown when no selection could be captured.
pub const CAPTURE_BODY: &'static str = "Highlight text first. If it keeps failing, re-grant Virex in System Settings › Privacy › Accessibility.";

/// The error shown when no API key is stored.
pub const NO_API_KEY_MESSAGE: &'static str = "No API key. Add your DeepSeek key in Settings.";

/// The first step after the hotkey is pressed.
pub enum TriggerStep {
    /// The hotkey is paused: do nothing.
    Ignored,
    /// Find the frontmost app and whether Accessibility access is granted,
    /// and hand both to the pending step.
    LocateSource(AwaitingSource),
}

/// A trigger waiting for the frontmost app and the access check.
pub struct AwaitingSource {}

/// The step after the source app and the access check are known.
pub enum SourceStep {
    /// Access is missing: ask for it, open the settings window, and show the
    /// notice when there is one. The run ends here.
    NeedsAccess { notice: Option<Notice> },
    /// Show the overlay (without taking focus) and report whether that worked.
    ShowOverlay(AwaitingOverlay),
}

/// A trigger waiting for the overlay to appear.
pub struct AwaitingOverlay {}

/// The step after showing the overlay.
pub enum OverlayStep {
    /// The overlay could not be shown: the run ends here.
    Stop,
    /// Capture the selection and report what came of it.
    Capture(AwaitingCapture),
}

/// A trigger waiting for the captured selection.
pub struct AwaitingCapture {}

/// The step after the capture.
pub enum CaptureStep {
    /// Nothing could be captured: show the notice when there is one. The run
    /// ends here.
    Failed { notice: Option<Notice> },
    /// Rewrite this text.
    Rewrite(String),
}

/// Run the hotkey pipeline: ignored while paused.
pub fn trigger(state: &AppState) -> (r: TriggerStep)
    ensures
        r is Ignored <==> state@.paused,
{
    if state.is_paused() {
        TriggerStep::Ignored
    } else {
        TriggerStep::LocateSource(AwaitingSource {})
    }
}

impl AwaitingSource {
    /// `pid` is the frontmost app (remembered so the replacement can be pasted
    /// back into it) and `trusted` whether Accessibility access is granted.
    pub fn on_source(self, state: &mut AppState, pid: Option<i32>, trusted: bool) -> (r: SourceStep)
        ensures
            final(state)@ == (AppStateView { frontmost_pid: pid, ..old(state)@ }),
            match r {
                SourceStep::NeedsAccess { notice } => !trusted && notice_shown(
                    old(state)@.settings,
                    ACCESS_TITLE@,
                    ACCESS_BODY@,
                    notice,
                ),
                SourceStep::ShowOverlay(_) => trusted,
            },
    {
        state.set_frontmost_pid(pid);
        if !trusted {
            let settings = state.settings();
            SourceStep::NeedsAccess { notice: send(&settings, ACCESS_TITLE, ACCESS_BODY) }
        } else {
            SourceStep::ShowOverlay(AwaitingOverlay {})
        }
    }
}

impl AwaitingOverlay {
    /// `shown` tells whether the overlay appeared.
    pub fn on_overlay(self, shown: bool) -> (r: OverlayStep)
        ensures
            r is Capture <==> shown,
    {
        if shown {
            OverlayStep::Capture(AwaitingCapture {})
        } else {
            OverlayStep::Stop
        }
    }
}

impl AwaitingCapture {
    /// `captured` is the outcome of capturing the selection; a captured text
    /// becomes the last selection (for Retry) and is rewritten.
    pub fn on_capture(self, state: &mut AppState, captured: Result<String, CaptureError>) -> (r:
        CaptureStep)
        ensures
            match captured {
                Ok(t) => {
                    &&& final(state)@ == (AppStateView { last_selection: Some(t@), ..old(state)@ })
                    &&& r matches CaptureStep::Rewrite(x) && x@ == t@
                },
                Err(_) => {
                    &&& final(state)@ == old(state)@
                    &&& r matches CaptureStep::Failed { notice } && notice_shown(
                        old(state)@.settings,
                        CAPTURE_TITLE@,
                        CAPTURE_BODY@,
                        notice,
                    )
                },
            },
    {
        match captured {
            Ok(text) => {
                state.set_last_selection(Some(text.clone()));
                CaptureStep::Rewrite(text)
            },
            Err(_) => {
                let settings = state.settings();
                CaptureStep::Failed { notice: send(&settings, CAPTURE_TITLE, CAPTURE_BODY) }
            },
        }
    }
}

/// The text Retry rewrites again: the last captured selection, if any.
pub fn retry(state: &AppState) -> (r: Option<String>)
    ensures
        match r {
            Some(t) => state@.last_selection == Some(t@),
            None => state@.last_selection is None,
        },
{
    state.last_selection()
}

/// The content of a rewrite in progress: the original text, the fragments shown
/// so far (in order), the stream state, and whether the result is copied.
pub struct RewriteRunView {
    pub original: Seq<char>,
    pub shown: Seq<Seq<char>>,
    pub progress: StreamProgress,
    pub auto_copy: bool,
}

/// A rewrite whose response is streaming in.
pub struct RewriteRun {
    original: String,
    stream: RewriteStream,
    auto_copy: bool,
    shown: Ghost<Seq<Seq<char>>>,
}

impl View for RewriteRun {
    type V = RewriteRunView;

    closed spec fn view(&self) -> RewriteRunView {
        RewriteRunView {
            original: self.original@,
            shown: self.shown@,
            progress: self.stream@,
            auto_copy: self.auto_copy,
        }
    }
}

impl RewriteRun {
    /// The text received so far is exactly what has been shown, in order.
    #[verifier::type_invariant]
    closed spec fn shows_what_it_has(self) -> bool {
        self.stream@.text == concat(self.shown@)
    }
}

/// The start of a rewrite.
pub enum RewriteStart {
    /// No API key: emit both events and open the settings window.
    NoKey { start: StreamEvent, error: StreamEvent },
    /// Emit the start event, send the planned request, and feed the response
    /// to the run.
    Stream { start: StreamEvent, plan: RewritePlan, run: RewriteRun },
}

/// The end of a rewrite: what to put on the clipboard, if anything, and the
/// final event.
pub struct RewriteEnd {
    pub clipboard: Option<String>,
    pub event: StreamEvent,
}

/// What to do with one frame of the response.
pub struct FrameStep {
    /// The response is complete; read no further.
    pub stop: bool,
    /// The event to emit, if any.
    pub event: Option<StreamEvent>,
}

/// Start rewriting `input` with the stored API key, if there is one.
pub fn rewrite(input: String, api_key: Option<String>, settings: &Settings) -> (r: RewriteStart)
    ensures
        match r {
            RewriteStart::NoKey { start, error } => {
                &&& api_key is None
                &&& start matches StreamEvent::Start { original } && original@ == input@
                &&& error matches StreamEvent::Error { message } && message@ == NO_API_KEY_MESSAGE@
            },
            RewriteStart::Stream { start, plan, run } => {
                &&& api_key matches Some(k) && is_plan_for(plan, k@, *settings, input@)
                &&& start matches StreamEvent::Start { original } && original@ == input@
                &&& run@ == (RewriteRunView {
                    original: input@,
                    shown: Seq::empty(),
                    progress: fresh_progress(),
                    auto_copy: settings.auto_copy,
                })
            },
        },
{
    let start = StreamEvent::Start { original: input.clone() };
    match api_key {
        None => RewriteStart::NoKey {
            start,
            error: StreamEvent::Error { message: owned(NO_API_KEY_MESSAGE) },
        },
        Some(key) => {
            let plan = rewrite_plan(
                &RewriteRequest { api_key: key.as_str(), settings, input: input.as_str() },
            );
            let run = RewriteRun {
                original: input,
                stream: RewriteStream::new(),
                auto_copy: settings.auto_copy,
                shown: Ghost(Seq::empty()),
            };
            RewriteStart::Stream { start, plan, run }
        },
    }
}

/// The end event for a rewrite that produced `full` or failed with `e`.
pub open spec fn rewrite_end_spec(r: RewriteEnd, outcome: Result<Seq<char>, DeepSeekError>, auto_copy: bool) -> bool {
    match outcome {
        Ok(full) => {
            &&& r.event matches StreamEvent::Done { full: f } && f@ == full
            &&& match r.clipboard {
                Some(c) => auto_copy && c@ == full,
                None => !auto_copy,
            }
        },
        Err(e) => {
            &&& r.event matches StreamEvent::Error { message } && message@ == deepseek_error_text(e)
            &&& r.clipboard is None
        },
    }
}

fn finish_rewrite(outcome: Result<String, DeepSeekError>, auto_copy: bool) -> (r: RewriteEnd)
    ensures
        rewrite_end_spec(r, match outcome {
            Ok(f) => Ok(f@),
            Err(e) => Err(e),
        }, auto_copy),
{
    match outcome {
        Ok(full) => {
            let clipboard = if auto_copy {
                Some(full.clone())
            } else {
                None
            };
            RewriteEnd { clipboard, event: StreamEvent::Done { full } }
        },
        Err(e) => RewriteEnd { clipboard: None, event: StreamEvent::Error { message: e.message() } },
    }
}

impl RewriteRun {
    /// Take in one frame of the response; its text fragment, if any, becomes a
    /// `Delta` event. Gives back the run and what to do.
    pub fn on_frame(self, frame: &SseFrame) -> (r: (RewriteRun, FrameStep))
        ensures
            r.0@.original == self@.original,
            r.0@.auto_copy == self@.auto_copy,
            r.0@.progress == crate::deepseek::advance(self@.progress, *frame),
            r.1.stop == r.0@.progress.finished,
            match r.1.event {
                Some(e) => e matches StreamEvent::Delta { text } && r.0@.shown == self@.shown.push(
                    text@,
                ) && crate::deepseek::emitted(self@.progress, *frame) == Some(text@),
                None => r.0@.shown == self@.shown && crate::deepseek::emitted(
                    self@.progress,
                    *frame,
                ) is None,
            },
    {
        proof {
            use_type_invariant(&self);
        }
        let RewriteRun { original, stream, auto_copy, shown } = self;
        let mut stream = stream;
        let outcome = stream.on_frame(frame);
        match outcome {
            FrameOutcome::Finished => (
                RewriteRun { original, stream, auto_copy, shown },
                FrameStep { stop: true, event: None },
            ),
            FrameOutcome::Ignored => (
                RewriteRun { original, stream, auto_copy, shown },
                FrameStep { stop: false, event: None },
            ),
            FrameOutcome::Fragment(s) => {
                let ghost before = shown@;
                proof {
                    assert(before.push(s@).drop_last() =~= before);
                }
                (
                    RewriteRun { original, stream, auto_copy, shown: Ghost(before.push(s@)) },
                    FrameStep { stop: false, event: Some(StreamEvent::Delta { text: s }) },
                )
            },
        }
    }

    /// The response is over (after `[DONE]` or at the end of the stream): the
    /// text shown so far is the result, or there was none.
    pub fn on_end(self) -> (r: RewriteEnd)
        ensures
            rewrite_end_spec(r, if concat(self@.shown).len() > 0 {
                Ok(concat(self@.shown))
            } else {
                Err(DeepSeekError::Parse)
            }, self@.auto_copy),
    {
        proof {
            use_type_invariant(&self);
        }
        let auto_copy = self.auto_copy;
        let outcome = self.stream.finish();
        finish_rewrite(outcome, auto_copy)
    }

    /// The request or the stream failed with `e`.
    pub fn on_failure(self, e: DeepSeekError) -> (r: RewriteEnd)
        ensures
            rewrite_end_spec(r, Err(e), self@.auto_copy),
    {
        finish_rewrite(Err(e), self.auto_copy)
    }
}

/// The start of a translation shown in the overlay.
pub struct TranslateRun {
    /// The language to translate into.
    pub target_lang: String,
    /// The first event.
    pub start: StreamEvent,
}

/// Translate `input` into `target_lang`, or into the configured target language
/// when none is given.
pub fn translate(input: String, target_lang: Option<String>, settings: &Settings) -> (r: TranslateRun)
    ensures
        r.target_lang@ == match target_lang {
            Some(t) => t@,
            None => settings.target_lang@,
        },
        r.start matches StreamEvent::Start { original } && original@ == input@,
{
    let target = match target_lang {
        Some(t) => t,
        None => settings.target_lang.clone(),
    };
    TranslateRun { target_lang: target, start: StreamEvent::Start { original: input } }
}

/// The end of a translation with `result`: the translation goes on the
/// clipboard when `auto_copy` is on and is the final event; a failure is
/// reported by its message.
pub fn finish_translation(result: Result<TranslationResult, TranslateError>, auto_copy: bool) -> (r:
    RewriteEnd)
    ensures
        match result {
            Ok(res) => {
                &&& r.event matches StreamEvent::Done { full } && full@ == res.translation@
                &&& match r.clipboard {
                    Some(c) => auto_copy && c@ == res.translation@,
                    None => !auto_copy,
                }
            },
            Err(e) => {
                &&& r.event matches StreamEvent::Error { message } && message@ == translate_error_text(e)
                &&& r.clipboard is None
            },
        },
{
    match result {
        Ok(res) => {
            let clipboard = if auto_copy {
                Some(res.translation.clone())
            } else {
                None
            };
            RewriteEnd { clipboard, event: StreamEvent::Done { full: res.translation } }
        },
        Err(e) => RewriteEnd { clipboard: None, event: StreamEvent::Error { message: e.message() } },
    }
}

} // verus!
