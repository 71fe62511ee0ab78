//! Events sent to the overlay while a rewrite or translation runs.
//!
//! On the wire each event is a JSON object whose `kind` member names the
//! variant and whose one other member carries its text.

use vstd::prelude::*;

use crate::json::{json_string, json_string_of};
use crate::text::owned;

verus! {

/// The lifecycle of a streamed rewrite.
pub enum StreamEvent {
    /// A new rewrite began; carries the original captured text.
    Start { original: String },
    /// An incremental text fragment.
    Delta { text: String },
    /// The rewrite finished; carries the full result.
    Done { full: String },
    /// Something went wrong; carries a user-facing message.
    Error { message: String },
}

/// The wire tag of an event.
pub open spec fn event_kind(e: StreamEvent) -> Seq<char> {
    match e {
        StreamEvent::Start { .. } => "start"@,
        StreamEvent::Delta { .. } => "delta"@,
        StreamEvent::Done { .. } => "done"@,
        StreamEvent::Error { .. } => "error"@,
    }
}

/// The name of the member that carries an event's text.
pub open spec fn event_field(e: StreamEvent) -> Seq<char> {
    match e {
        StreamEvent::Start { .. } => "original"@,
        StreamEvent::Delta { .. } => "text"@,
        StreamEvent::Done { .. } => "full"@,
        StreamEvent::Error { .. } => "message"@,
    }
}

/// The text an event carries.
pub open spec fn event_text(e: StreamEvent) -> Seq<char> {
    match e {
        StreamEvent::Start { original } => original@,
        StreamEvent::Delta { text } => text@,
        StreamEvent::Done { full } => full@,
        StreamEvent::Error { message } => message@,
    }
}

/// The JSON text of an event: `{"kind":"<kind>","<field>":<text as a JSON string>}`.
pub open spec fn event_json(e: StreamEvent) -> Seq<char> {
    "{\"kind\":\""@ + event_kind(e) + "\",\""@ + event_field(e) + "\":"@ + json_string_of(event_text(e))
        + "}"@
}

impl StreamEvent {
    /// The value of the `kind` tag.
    pub fn kind(&self) -> (r: &'static str)
        ensures
            r@ == event_kind(*self),
    {
        match self {
            StreamEvent::Start { .. } => "start",
            StreamEvent::Delta { .. } => "delta",
            StreamEvent::Done { .. } => "done",
            StreamEvent::Error { .. } => "error",
        }
    }

    /// The name of the member carrying the text.
    pub fn field(&self) -> (r: &'static str)
        ensures
            r@ == event_field(*self),
    {
        match self {
            StreamEvent::Start { .. } => "original",
            StreamEvent::Delta { .. } => "text",
            StreamEvent::Done { .. } => "full",
            StreamEvent::Error { .. } => "message",
        }
    }

    /// The JSON text sent to the overlay for this event.
    pub fn to_json(&self) -> (r: String)
        ensures
            r@ == event_json(*self),
    {
        let kind = self.kind();
        proof {
            reveal_strlit("start");
            reveal_strlit("delta");
            reveal_strlit("done");
            reveal_strlit("error");
        }
        let quoted_kind = json_string(kind);
        let mut out = owned("{\"kind\":");
        out.append(quoted_kind.as_str());
        out.append(",\"");
        out.append(self.field());
        out.append("\":");
        let quoted_text = json_string(self.payload().as_str());
        out.append(quoted_text.as_str());
        out.append("}");
        proof {
            reveal_strlit("{\"kind\":");
            reveal_strlit("{\"kind\":\"");
            reveal_strlit(",\"");
            reveal_strlit("\",\"");
        }
        assert(out@ =~= event_json(*self));
        out
    }

    /// The text carried.
    pub fn payload(&self) -> (r: &String)
        ensures
            r@ == event_text(*self),
    {
        match self {
            StreamEvent::Start { original } => original,
            StreamEvent::Delta { text } => text,
            StreamEvent::Done { full } => full,
            StreamEvent::Error { message } => message,
        }
    }
}

} // verus!
