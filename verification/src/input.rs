//! Timing decisions around the clipboard and the synthesised copy and paste
//! shortcuts: which keys, how long to wait, when to stop polling.

use vstd::prelude::*;

verus! {

/// Interval between clipboard readings while waiting for a change.
pub const POLL_STEP_MS: u64 = 50;

/// Interval between checks while waiting for the modifier keys to be released.
pub const MODIFIER_STEP_MS: u64 = 20;

/// Most checks made while waiting for the modifier keys to be released.
pub const MODIFIER_CHECKS: u32 = 40;

/// Pause that lets the target app register a synthesised shortcut.
pub const SETTLE_MS: u64 = 150;

/// Pause between key-down and key-up of a synthesised shortcut.
pub const KEY_HOLD_MS: u64 = 35;

/// macOS virtual key code of `C`.
pub const KEY_C: u16 = 0x08;

/// macOS virtual key code of `V`.
pub const KEY_V: u16 = 0x09;

/// A Command-key shortcut: the macOS virtual key, and the letter used where
/// keys are sent by character.
pub struct KeyChord {
    pub virtual_key: u16,
    pub letter: char,
}

/// The letter sent for `virtual_key` where keys go by character: `c` for the
/// `C` key, `v` for anything else.
pub open spec fn chord_letter_of(virtual_key: u16) -> char {
    if virtual_key == KEY_C {
        'c'
    } else {
        'v'
    }
}

/// The Command chord for `virtual_key`.
pub fn chord(virtual_key: u16) -> (r: KeyChord)
    ensures
        r.virtual_key == virtual_key,
        r.letter == chord_letter_of(virtual_key),
{
    let letter = if virtual_key == KEY_C {
        'c'
    } else {
        'v'
    };
    KeyChord { virtual_key, letter }
}

/// ⌘C, which copies the current selection.
pub fn send_copy() -> (r: KeyChord)
    ensures
        r.virtual_key == KEY_C,
        r.letter == 'c',
{
    chord(KEY_C)
}

/// ⌘V, which pastes at the insertion point.
pub fn send_paste() -> (r: KeyChord)
    ensures
        r.virtual_key == KEY_V,
        r.letter == 'v',
{
    chord(KEY_V)
}

/// What to do after one clipboard reading.
pub enum PollStep {
    /// Stop and return this clipboard text.
    Done(Option<String>),
    /// Sleep this many milliseconds, then read again.
    Sleep(u64),
}

/// The content of a clipboard poll: the text it waits to change from, how long
/// it may wait, and how long it has waited.
pub struct PollView {
    pub baseline: Option<Seq<char>>,
    pub timeout_ms: u64,
    pub elapsed_ms: u64,
}

/// Polls the clipboard until its text differs from a baseline or time is up.
pub struct ClipboardPoll {
    baseline: Option<String>,
    timeout_ms: u64,
    elapsed_ms: u64,
}

/// The characters of an optional string.
pub open spec fn chars_of_opt(s: Option<String>) -> Option<Seq<char>> {
    match s {
        Some(t) => Some(t@),
        None => None,
    }
}

impl View for ClipboardPoll {
    type V = PollView;

    closed spec fn view(&self) -> PollView {
        PollView {
            baseline: chars_of_opt(self.baseline),
            timeout_ms: self.timeout_ms,
            elapsed_ms: self.elapsed_ms,
        }
    }
}

impl ClipboardPoll {
    /// The poll never waits a full step past its timeout.
    #[verifier::type_invariant]
    closed spec fn bounded(self) -> bool {
        &&& self.elapsed_ms < self.timeout_ms + POLL_STEP_MS
        &&& self.timeout_ms <= u64::MAX - POLL_STEP_MS
    }
}

/// Start waiting, for at most `timeout_ms`, for the clipboard to differ from
/// `baseline`; hand every reading (the first one right away) to the poll.
pub fn wait_for_clipboard_change(baseline: Option<String>, timeout_ms: u64) -> (r: ClipboardPoll)
    requires
        timeout_ms <= u64::MAX - POLL_STEP_MS,
    ensures
        r@ == (PollView { baseline: chars_of_opt(baseline), timeout_ms, elapsed_ms: 0 }),
{
    ClipboardPoll { baseline, timeout_ms, elapsed_ms: 0 }
}

impl ClipboardPoll {
    /// The clipboard now reads `latest`: return it when it differs from the
    /// baseline or time is up; otherwise sleep one step and read again.
    pub fn on_reading(&mut self, latest: Option<String>) -> (r: PollStep)
        ensures
            final(self)@.baseline == old(self)@.baseline,
            final(self)@.timeout_ms == old(self)@.timeout_ms,
            match r {
                PollStep::Done(t) => {
                    &&& chars_of_opt(t) == chars_of_opt(latest)
                    &&& (old(self)@.elapsed_ms >= old(self)@.timeout_ms || chars_of_opt(latest)
                        != old(self)@.baseline)
                    &&& final(self)@.elapsed_ms == old(self)@.elapsed_ms
                },
                PollStep::Sleep(ms) => {
                    &&& ms == POLL_STEP_MS
                    &&& old(self)@.elapsed_ms < old(self)@.timeout_ms
                    &&& chars_of_opt(latest) == old(self)@.baseline
                    &&& final(self)@.elapsed_ms == old(self)@.elapsed_ms + POLL_STEP_MS
                },
            },
    {
        proof {
            use_type_invariant(&*self);
        }
        if self.elapsed_ms < self.timeout_ms {
            let same = match (&latest, &self.baseline) {
                (Some(a), Some(b)) => *a == *b,
                (None, None) => true,
                _ => false,
            };
            if !same {
                return PollStep::Done(latest);
            }
            self.elapsed_ms = self.elapsed_ms + POLL_STEP_MS;
            PollStep::Sleep(POLL_STEP_MS)
        } else {
            PollStep::Done(latest)
        }
    }

    /// How long the poll has slept so far, which stays under the timeout plus
    /// one step.
    pub fn elapsed_ms(&self) -> (r: u64)
        ensures
            r == self@.elapsed_ms,
            r < self@.timeout_ms + POLL_STEP_MS,
    {
        proof {
            use_type_invariant(self);
        }
        self.elapsed_ms
    }
}

/// Waiting for the trigger's modifier keys to be released before a shortcut is
/// synthesised.
pub struct ModifierWait {
    checks: u32,
}

/// After one modifier check: sleep this long, then stop or check again.
pub struct ModifierStep {
    pub sleep_ms: u64,
    pub done: bool,
}

impl View for ModifierWait {
    type V = u32;

    closed spec fn view(&self) -> u32 {
        self.checks
    }
}

/// Start waiting for the modifier keys to be released.
pub fn wait_modifiers_clear() -> (r: ModifierWait)
    ensures
        r@ == 0,
{
    ModifierWait { checks: 0 }
}

impl ModifierWait {
    /// At most the allowed number of checks are ever made.
    #[verifier::type_invariant]
    closed spec fn within_budget(self) -> bool {
        self.checks <= MODIFIER_CHECKS
    }

    /// `held` tells whether a modifier key is down right now. Every check is
    /// followed by a short sleep; the wait ends once no modifier is held or
    /// with the last allowed check, so it never lasts more than
    /// `MODIFIER_CHECKS` sleeps of `MODIFIER_STEP_MS`.
    pub fn on_check(&mut self, held: bool) -> (r: ModifierStep)
        ensures
            r.sleep_ms == MODIFIER_STEP_MS,
            final(self)@ <= MODIFIER_CHECKS,
            old(self)@ < MODIFIER_CHECKS ==> final(self)@ == old(self)@ + 1 && r.done == (!held
                || final(self)@ == MODIFIER_CHECKS),
            old(self)@ >= MODIFIER_CHECKS ==> final(self)@ == old(self)@ && r.done,
    {
        proof {
            use_type_invariant(&*self);
        }
        if self.checks < MODIFIER_CHECKS {
            self.checks = self.checks + 1;
            ModifierStep { sleep_ms: MODIFIER_STEP_MS, done: !held || self.checks == MODIFIER_CHECKS }
        } else {
            ModifierStep { sleep_ms: MODIFIER_STEP_MS, done: true }
        }
    }
}

} // verus!
