//! "Check for Updates…": which dialog follows each outcome of checking,
//! downloading and installing.

use vstd::prelude::*;

use crate::text::owned;

verus! {

/// The kind of a dialog.
pub enum DialogKind {
    Info,
    Error,
    /// A question with a confirming and a declining button.
    Choice { confirm: String, decline: String },
}

/// A message dialog.
pub struct Dialog {
    pub title: String,
    pub message: String,
    pub kind: DialogKind,
}

/// What checking for an update gave.
pub enum CheckOutcome {
    /// The updater could not be started; carries the reason.
    UpdaterUnavailable(String),
    /// The check failed; carries the reason.
    Failed(String),
    /// No newer release.
    UpToDate,
    /// A newer release is available.
    Available { version: String },
}

/// An update offered to the user, waiting for the answer.
pub struct AwaitingConsent {
    version: String,
}

/// An update being downloaded and installed.
pub struct AwaitingInstall {
    version: String,
}

impl AwaitingConsent {
    pub closed spec fn version(self) -> Seq<char> {
        self.version@
    }
}

impl AwaitingInstall {
    pub closed spec fn version(self) -> Seq<char> {
        self.version@
    }
}

/// The step after a check.
pub enum CheckStep {
    /// Show this dialog; nothing follows.
    Tell(Dialog),
    /// Ask whether to install, and hand the answer to the pending step.
    Ask { dialog: Dialog, pending: AwaitingConsent },
}

/// The step after installing.
pub enum InstallStep {
    /// Show this dialog; nothing follows.
    Tell(Dialog),
    /// Ask whether to restart now; restart when the user confirms.
    AskRestart(Dialog),
}

/// Title of every failure dialog.
pub const FAILED_TITLE: &'static str = "Update failed";

/// A dialog with the given parts.
pub open spec fn dialog_is(d: Dialog, title: Seq<char>, message: Seq<char>) -> bool {
    d.title@ == title && d.message@ == message
}

/// A failure dialog with `message`.
pub open spec fn failure_dialog(d: Dialog, message: Seq<char>) -> bool {
    dialog_is(d, FAILED_TITLE@, message) && d.kind is Error
}

/// A question dialog with the given parts and buttons.
pub open spec fn question_dialog(
    d: Dialog,
    title: Seq<char>,
    message: Seq<char>,
    confirm: Seq<char>,
) -> bool {
    &&& dialog_is(d, title, message)
    &&& match d.kind {
        DialogKind::Choice { confirm: c, decline } => c@ == confirm && decline@ == "Later"@,
        _ => false,
    }
}

fn failure(prefix: &str, reason: &str) -> (r: Dialog)
    ensures
        failure_dialog(r, prefix@ + reason@),
{
    let mut message = owned(prefix);
    message.append(reason);
    Dialog { title: owned(FAILED_TITLE), message, kind: DialogKind::Error }
}

fn question(title: &str, message: String, confirm: &str) -> (r: Dialog)
    ensures
        question_dialog(r, title@, message@, confirm@),
{
    Dialog {
        title: owned(title),
        message,
        kind: DialogKind::Choice { confirm: owned(confirm), decline: owned("Later") },
    }
}

/// What to show after checking for an update while running version `current`.
pub fn check(current: &str, outcome: CheckOutcome) -> (r: CheckStep)
    ensures
        match outcome {
            CheckOutcome::UpdaterUnavailable(e) => r matches CheckStep::Tell(d) && failure_dialog(
                d,
                "Couldn't start the updater.\n\n"@ + e@,
            ),
            CheckOutcome::Failed(e) => r matches CheckStep::Tell(d) && failure_dialog(
                d,
                "Couldn't check for updates.\n\n"@ + e@,
            ),
            CheckOutcome::UpToDate => r matches CheckStep::Tell(d) && dialog_is(
                d,
                "Virex is up to date"@,
                "You're on the latest version ("@ + current@ + ")."@,
            ) && d.kind is Info,
            CheckOutcome::Available { version } => r matches CheckStep::Ask { dialog, pending }
                && question_dialog(
                dialog,
                "Update available"@,
                "Virex "@ + version@ + " is available — you're on "@ + current@
                    + ".\n\nDownload and install it now?"@,
                "Install"@,
            ) && pending.version() == version@,
        },
{
    match outcome {
        CheckOutcome::UpdaterUnavailable(e) => CheckStep::Tell(
            failure("Couldn't start the updater.\n\n", e.as_str()),
        ),
        CheckOutcome::Failed(e) => CheckStep::Tell(
            failure("Couldn't check for updates.\n\n", e.as_str()),
        ),
        CheckOutcome::UpToDate => {
            let mut message = owned("You're on the latest version (");
            message.append(current);
            message.append(").");
            CheckStep::Tell(
                Dialog { title: owned("Virex is up to date"), message, kind: DialogKind::Info },
            )
        },
        CheckOutcome::Available { version } => {
            let mut message = owned("Virex ");
            message.append(version.as_str());
            message.append(" is available — you're on ");
            message.append(current);
            message.append(".\n\nDownload and install it now?");
            let dialog = question("Update available", message, "Install");
            CheckStep::Ask { dialog, pending: AwaitingConsent { version } }
        },
    }
}

/// What to show after the check made at launch, which stays quiet unless there
/// is something to install: the same question as [`check`] for a newer
/// version, nothing for any other outcome.
pub fn check_on_launch(current: &str, outcome: CheckOutcome) -> (r: Option<(Dialog, AwaitingConsent)>)
    ensures
        match outcome {
            CheckOutcome::Available { version } => r matches Some((dialog, pending))
                && question_dialog(
                dialog,
                "Update available"@,
                "Virex "@ + version@ + " is available — you're on "@ + current@
                    + ".\n\nDownload and install it now?"@,
                "Install"@,
            ) && pending.version() == version@,
            _ => r is None,
        },
{
    let available = match &outcome {
        CheckOutcome::Available { .. } => true,
        _ => false,
    };
    if !available {
        return None;
    }
    match check(current, outcome) {
        CheckStep::Ask { dialog, pending } => Some((dialog, pending)),
        CheckStep::Tell(_) => None,
    }
}

impl AwaitingConsent {
    /// The user answered; `install` tells whether they agreed. Only then is the
    /// update downloaded and installed.
    pub fn on_answer(self, install: bool) -> (r: Option<AwaitingInstall>)
        ensures
            match r {
                Some(p) => install && p.version() == self.version(),
                None => !install,
            },
    {
        if install {
            Some(AwaitingInstall { version: self.version })
        } else {
            None
        }
    }
}

impl AwaitingInstall {
    /// Downloading and installing finished with `outcome`.
    pub fn on_installed(self, outcome: Result<(), String>) -> (r: InstallStep)
        ensures
            match outcome {
                Ok(()) => r matches InstallStep::AskRestart(d) && question_dialog(
                    d,
                    "Update installed"@,
                    "Virex "@ + self.version() + " is installed. Restart now to use it?"@,
                    "Restart"@,
                ),
                Err(e) => r matches InstallStep::Tell(d) && failure_dialog(
                    d,
                    "The update couldn't be installed.\n\n"@ + e@,
                ),
            },
    {
        match outcome {
            Ok(()) => {
                let mut message = owned("Virex ");
                message.append(self.version.as_str());
                message.append(" is installed. Restart now to use it?");
                InstallStep::AskRestart(question("Update installed", message, "Restart"))
            },
            Err(e) => InstallStep::Tell(failure("The update couldn't be installed.\n\n", e.as_str())),
        }
    }
}

} // verus!
