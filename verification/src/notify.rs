//! System notifications, gated by the user's "Show notifications" preference.

use vstd::prelude::*;

use crate::settings::Settings;
use crate::text::owned;

verus! {

/// A system notification to show.
pub struct Notice {
    pub title: String,
    pub body: String,
}

/// The notification for `title` and `body`, unless the user turned them off.
pub open spec fn notice_shown(settings: Settings, title: Seq<char>, body: Seq<char>, n: Option<Notice>) -> bool {
    match n {
        Some(x) => settings.show_notifications && x.title@ == title && x.body@ == body,
        None => !settings.show_notifications,
    }
}

/// The notification to show for `title` and `body`: none when the user has
/// turned notifications off.
pub fn send(settings: &Settings, title: &str, body: &str) -> (r: Option<Notice>)
    ensures
        notice_shown(*settings, title@, body@, r),
{
    if settings.show_notifications {
        Some(Notice { title: owned(title), body: owned(body) })
    } else {
        None
    }
}

} // verus!
