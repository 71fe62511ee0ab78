//! Deciding what was selected from the clipboard before and after a copy.
//!
//! The selection is captured by saving the clipboard, synthesising ⌘C, and
//! reading the clipboard again; this module decides what that reading means.

use vstd::prelude::*;

use crate::text::{blank, is_blank};

verus! {

/// Why no selection could be captured.
pub enum CaptureError {
    /// The clipboard did not change after the copy: nothing was selected, or
    /// the keystroke was dropped.
    Unchanged,
    /// The clipboard holds no text, or only white space.
    NothingSelected,
    /// The copy keystroke could not be sent; carries the reason.
    CopyFailed(String),
}

/// The characters of an optional string.
pub open spec fn text_of(s: Option<String>) -> Option<Seq<char>> {
    match s {
        Some(t) => Some(t@),
        None => None,
    }
}

/// The selection, given the clipboard text `previous` from before the copy
/// and `captured` from after it: the new clipboard text when it changed and is
/// not blank; an error rather than the old clipboard contents otherwise.
pub fn capture_selection(previous: Option<String>, captured: Option<String>) -> (r: Result<
    String,
    CaptureError,
>)
    ensures
        match captured {
            Some(t) => if text_of(previous) == Some(t@) {
                r == Err::<String, CaptureError>(CaptureError::Unchanged)
            } else if is_blank(t@) {
                r == Err::<String, CaptureError>(CaptureError::NothingSelected)
            } else {
                r matches Ok(s) && s@ == t@
            },
            None => r == Err::<String, CaptureError>(CaptureError::NothingSelected),
        },
{
    match captured {
        Some(text) => {
            let same = match &previous {
                Some(p) => *p == text,
                None => false,
            };
            if same {
                Err(CaptureError::Unchanged)
            } else if blank(text.as_str()) {
                Err(CaptureError::NothingSelected)
            } else {
                Ok(text)
            }
        },
        None => Err(CaptureError::NothingSelected),
    }
}

} // verus!
