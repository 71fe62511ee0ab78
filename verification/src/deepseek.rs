//! DeepSeek's chat-completion API, called with the user's own key: how a
//! rewrite request is addressed, how a failed response is reported, and how
//! the streamed server-sent events become text.
//!
//! The API streams chat-completion chunks as server-sent events.
//! Each frame's data is either `[DONE]` or a JSON chunk whose first choice may
//! carry a content fragment; fragments are handed out as they arrive and their
//! concatenation is the rewrite.

use vstd::prelude::*;

use crate::json::{json_of, parse_json, JsonValue};
use crate::settings::Settings;
use crate::text::{
    decimal, decimal_string, first_chars, owned, prefix_chars, strip_trailing, without_trailing,
};

verus! {

/// Why a rewrite failed.
pub enum DeepSeekError {
    /// The request timed out.
    Timeout,
    /// The request could not be sent or the stream broke.
    Network(String),
    /// The API answered with a non-success status.
    Api { status: u16, message: String },
    /// The stream carried no text.
    Parse,
    /// The free daily allowance is used up; carries the message to show.
    DailyLimit(String),
}

/// The user-facing text of an error.
pub open spec fn deepseek_error_text(e: DeepSeekError) -> Seq<char> {
    match e {
        DeepSeekError::Timeout => "request timed out"@,
        DeepSeekError::Network(m) => "network error: "@ + m@,
        DeepSeekError::Api { status, message } => "API error ("@ + decimal(status as nat) + "): "@
            + message@,
        DeepSeekError::Parse => "malformed response from API"@,
        DeepSeekError::DailyLimit(m) => m@,
    }
}

impl DeepSeekError {
    /// The user-facing text of this error.
    pub fn message(&self) -> (r: String)
        ensures
            r@ == deepseek_error_text(*self),
    {
        match self {
            DeepSeekError::Timeout => owned("request timed out"),
            DeepSeekError::Network(m) => {
                let mut s = owned("network error: ");
                s.append(m.as_str());
                s
            },
            DeepSeekError::Api { status, message } => {
                let mut s = owned("API error (");
                let code = decimal_string(*status as u64);
                s.append(code.as_str());
                s.append("): ");
                s.append(message.as_str());
                s
            },
            DeepSeekError::Parse => owned("malformed response from API"),
            DeepSeekError::DailyLimit(m) => m.clone(),
        }
    }
}

/// Parameters for a single rewrite request.
pub struct RewriteRequest<'a> {
    /// The user's DeepSeek API key.
    pub api_key: &'a str,
    pub settings: &'a Settings,
    pub input: &'a str,
}

/// Everything needed to send a rewrite request: where, how long to wait, the
/// bearer key, and the fields of the streamed chat-completion body, whose
/// messages are the system prompt and then the input.
pub struct RewritePlan {
    pub url: String,
    pub timeout_secs: u64,
    /// Sent as the bearer token.
    pub api_key: String,
    pub model: String,
    /// Bits of the `f32` sampling temperature.
    pub temperature_bits: u32,
    /// Content of the system message.
    pub system: String,
    /// Content of the user message.
    pub input: String,
}

/// The chat-completion endpoint under `base`.
pub open spec fn rewrite_url(base: Seq<char>) -> Seq<char> {
    strip_trailing(base, '/') + "/chat/completions"@
}

/// The request timeout: the configured one, but never under five seconds.
pub open spec fn effective_timeout(configured: u64) -> u64 {
    if configured < 5 {
        5
    } else {
        configured
    }
}

/// Whether `plan` sends `input` with `api_key` under `settings`.
pub open spec fn is_plan_for(plan: RewritePlan, api_key: Seq<char>, settings: Settings, input: Seq<char>) -> bool {
    &&& plan.url@ == rewrite_url(settings.base_url@)
    &&& plan.timeout_secs == effective_timeout(settings.timeout_secs)
    &&& plan.api_key@ == api_key
    &&& plan.model@ == settings.model@
    &&& plan.temperature_bits == settings.temperature_bits
    &&& plan.system@ == settings.system_prompt@
    &&& plan.input@ == input
}

/// The request never waits less than five seconds, and a configured timeout
/// of five seconds or more is kept as it is.
pub proof fn lemma_timeout_floor(configured: u64)
    ensures
        effective_timeout(configured) >= 5,
        configured >= 5 ==> effective_timeout(configured) == configured,
        configured < 5 ==> effective_timeout(configured) == 5,
{
}

/// How to send `req`.
pub fn rewrite_plan(req: &RewriteRequest) -> (r: RewritePlan)
    ensures
        is_plan_for(r, req.api_key@, *req.settings, req.input@),
{
    let mut url = without_trailing(req.settings.api_base(), '/');
    url.append("/chat/completions");
    let timeout_secs = if req.settings.timeout_secs < 5 {
        5
    } else {
        req.settings.timeout_secs
    };
    RewritePlan {
        url,
        timeout_secs,
        api_key: owned(req.api_key),
        model: req.settings.model.clone(),
        temperature_bits: req.settings.temperature_bits,
        system: req.settings.system_prompt.clone(),
        input: owned(req.input),
    }
}

/// Message shown when the free allowance is exhausted and the API gave none.
pub const DAILY_LIMIT_FALLBACK: &'static str = "You've hit today's free limit. Upgrade to Pro for unlimited rewrites.";

/// The status the API uses for an exhausted free allowance.
pub const STATUS_TOO_MANY_REQUESTS: u16 = 429;

/// The longest excerpt of an error body kept in [`DeepSeekError::Api`].
pub const ERROR_EXCERPT_CHARS: usize = 300;

/// The daily-limit message: the string member `message` of the error body when
/// there is one, the fallback text otherwise.
pub open spec fn daily_limit_text(body: Option<JsonValue>) -> Seq<char> {
    match body {
        Some(v) => match v.member("message"@) {
            Some(m) => match m.text() {
                Some(t) => t,
                None => DAILY_LIMIT_FALLBACK@,
            },
            None => DAILY_LIMIT_FALLBACK@,
        },
        None => DAILY_LIMIT_FALLBACK@,
    }
}

/// The daily-limit message for an error body that decoded to `body`.
pub fn daily_limit_message(body: Option<&JsonValue>) -> (r: String)
    ensures
        r@ == daily_limit_text(
            match body {
                Some(b) => Some(*b),
                None => None,
            },
        ),
{
    let found: Option<&String> = match body {
        Some(v) => match v.get_member("message") {
            Some(m) => m.as_text(),
            None => None,
        },
        None => None,
    };
    match found {
        Some(t) => t.clone(),
        None => owned(DAILY_LIMIT_FALLBACK),
    }
}

/// The daily-limit message is the body's `message` member exactly as sent
/// when that member is a string, and the fallback text in every other case.
pub proof fn lemma_daily_limit_message_verbatim(body: Option<JsonValue>, m: String)
    ensures
        (body matches Some(b) && b.member("message"@) == Some(JsonValue::Str(m)))
            ==> daily_limit_text(body) == m@,
        (body is None || body->0.member("message"@) is None || !(body->0.member(
            "message"@,
        )->0 is Str)) ==> daily_limit_text(body) == DAILY_LIMIT_FALLBACK@,
{
}

/// The error for a response with non-success `status` whose body is `raw`.
pub fn error_for_status(status: u16, raw: &str) -> (r: DeepSeekError)
    ensures
        status == STATUS_TOO_MANY_REQUESTS ==> (r matches DeepSeekError::DailyLimit(m) && m@
            == daily_limit_text(json_of(raw@))),
        status != STATUS_TOO_MANY_REQUESTS ==> (r matches DeepSeekError::Api { status: s, message }
            && s == status && message@ == prefix_chars(raw@, ERROR_EXCERPT_CHARS as nat)),
{
    if status == STATUS_TOO_MANY_REQUESTS {
        let body = parse_json(raw);
        DeepSeekError::DailyLimit(daily_limit_message(body.as_ref()))
    } else {
        DeepSeekError::Api { status, message: first_chars(raw, ERROR_EXCERPT_CHARS) }
    }
}

/// The `delta` of one streamed choice.
pub struct Delta {
    pub content: Option<String>,
}

/// One streamed choice.
pub struct StreamChoice {
    pub delta: Delta,
}

/// One streamed chunk.
pub struct StreamChunk {
    pub choices: Vec<StreamChoice>,
}

/// One server-sent event: its data, and the chunk that data decodes to, when
/// it is a well-formed chunk.
pub struct SseFrame {
    pub data: String,
    pub chunk: Option<StreamChunk>,
}

/// The data that ends the stream.
pub const DONE_MARKER: &'static str = "[DONE]";

/// The text fragment a frame carries: the non-empty content of the first
/// choice of a well-formed chunk.
pub open spec fn frame_fragment(frame: SseFrame) -> Option<Seq<char>> {
    match frame.chunk {
        Some(c) => if c.choices@.len() > 0 {
            match c.choices@[0].delta.content {
                Some(s) => if s@.len() > 0 {
                    Some(s@)
                } else {
                    None
                },
                None => None,
            }
        } else {
            None
        },
        None => None,
    }
}

/// Progress through a stream: the text so far and whether `[DONE]` was seen.
pub struct StreamProgress {
    pub text: Seq<char>,
    pub finished: bool,
}

/// The fragment handed out for `frame` in state `p`, if any.
pub open spec fn emitted(p: StreamProgress, frame: SseFrame) -> Option<Seq<char>> {
    if p.finished || frame.data@ == DONE_MARKER@ {
        None
    } else {
        frame_fragment(frame)
    }
}

/// The state after `frame` arrives in state `p`.
pub open spec fn advance(p: StreamProgress, frame: SseFrame) -> StreamProgress {
    if p.finished {
        p
    } else if frame.data@ == DONE_MARKER@ {
        StreamProgress { text: p.text, finished: true }
    } else {
        match frame_fragment(frame) {
            Some(s) => StreamProgress { text: p.text + s, finished: false },
            None => p,
        }
    }
}

/// The state after all of `frames`, starting from `p`.
pub open spec fn advance_all(p: StreamProgress, frames: Seq<SseFrame>) -> StreamProgress
    decreases frames.len(),
{
    if frames.len() == 0 {
        p
    } else {
        advance(advance_all(p, frames.drop_last()), frames.last())
    }
}

/// The fragments handed out for `frames`, starting from `p`, in order.
pub open spec fn fragments(p: StreamProgress, frames: Seq<SseFrame>) -> Seq<Seq<char>>
    decreases frames.len(),
{
    if frames.len() == 0 {
        Seq::empty()
    } else {
        let before = fragments(p, frames.drop_last());
        match emitted(advance_all(p, frames.drop_last()), frames.last()) {
            Some(s) => before.push(s),
            None => before,
        }
    }
}

/// The state of a stream that has not started.
pub open spec fn fresh_progress() -> StreamProgress {
    StreamProgress { text: Seq::empty(), finished: false }
}

/// What became of one frame.
pub enum FrameOutcome {
    /// The stream is over; read no further.
    Finished,
    /// The frame carried no text.
    Ignored,
    /// A new fragment of the rewrite, to show as it arrives.
    Fragment(String),
}

/// Accumulates the text of a streamed rewrite.
pub struct RewriteStream {
    text: String,
    finished: bool,
}

impl View for RewriteStream {
    type V = StreamProgress;

    closed spec fn view(&self) -> StreamProgress {
        StreamProgress { text: self.text@, finished: self.finished }
    }
}

impl RewriteStream {
    /// A stream that has received nothing yet.
    pub fn new() -> (r: RewriteStream)
        ensures
            r@ == fresh_progress(),
    {
        RewriteStream { text: String::new(), finished: false }
    }

    /// Take in one frame.
    pub fn on_frame(&mut self, frame: &SseFrame) -> (r: FrameOutcome)
        ensures
            final(self)@ == advance(old(self)@, *frame),
            match r {
                FrameOutcome::Finished => final(self)@.finished,
                FrameOutcome::Ignored => !final(self)@.finished && emitted(old(self)@, *frame) is None,
                FrameOutcome::Fragment(s) => emitted(old(self)@, *frame) == Some(s@),
            },
            emitted(old(self)@, *frame) is Some ==> r is Fragment,
    {
        if self.finished {
            return FrameOutcome::Finished;
        }
        if frame.data == owned(DONE_MARKER) {
            self.finished = true;
            return FrameOutcome::Finished;
        }
        match &frame.chunk {
            Some(c) => {
                if c.choices.len() > 0 {
                    match &c.choices[0].delta.content {
                        Some(s) => {
                            if s.as_str().is_empty() {
                                FrameOutcome::Ignored
                            } else {
                                self.text.append(s.as_str());
                                FrameOutcome::Fragment(s.clone())
                            }
                        },
                        None => FrameOutcome::Ignored,
                    }
                } else {
                    FrameOutcome::Ignored
                }
            },
            None => FrameOutcome::Ignored,
        }
    }

    /// The rewrite once the stream has ended: the accumulated text, or
    /// [`DeepSeekError::Parse`] when there is none.
    pub fn finish(self) -> (r: Result<String, DeepSeekError>)
        ensures
            self@.text.len() == 0 ==> r == Err::<String, DeepSeekError>(DeepSeekError::Parse),
            self@.text.len() > 0 ==> (r matches Ok(t) && t@ == self@.text),
    {
        if self.text.as_str().is_empty() {
            Err(DeepSeekError::Parse)
        } else {
            Ok(self.text)
        }
    }
}

/// The concatenation of `parts`, in order.
pub open spec fn concat(parts: Seq<Seq<char>>) -> Seq<char>
    decreases parts.len(),
{
    if parts.len() == 0 {
        Seq::empty()
    } else {
        concat(parts.drop_last()) + parts.last()
    }
}

/// The text a stream accumulates is exactly the concatenation of the fragments
/// it handed out, in the order they were handed out; nothing is added after
/// `[DONE]`.
pub proof fn lemma_stream_text_is_fragments(frames: Seq<SseFrame>)
    ensures
        advance_all(fresh_progress(), frames).text == concat(fragments(fresh_progress(), frames)),
    decreases frames.len(),
{
    if frames.len() > 0 {
        lemma_stream_text_is_fragments(frames.drop_last());
        let before = advance_all(fresh_progress(), frames.drop_last());
        let parts = fragments(fresh_progress(), frames.drop_last());
        match emitted(before, frames.last()) {
            Some(s) => {
                assert(parts.push(s).drop_last() =~= parts);
            },
            None => {},
        }
    }
}

/// Before `[DONE]`, a frame whose chunk's first choice carries non-empty
/// content `c` hands out `c` exactly as it arrived and appends exactly `c` to
/// the text, white space and all.
pub proof fn lemma_content_kept_verbatim(p: StreamProgress, frame: SseFrame, c: String)
    requires
        !p.finished,
        frame.data@ != DONE_MARKER@,
        frame.chunk is Some,
        frame.chunk->0.choices@.len() > 0,
        frame.chunk->0.choices@[0].delta.content == Some(c),
        c@.len() > 0,
    ensures
        emitted(p, frame) == Some(c@),
        advance(p, frame).text == p.text + c@,
        !advance(p, frame).finished,
{
}

/// A frame that carries no content, or empty content, hands out nothing and
/// changes nothing.
pub proof fn lemma_no_content_no_change(p: StreamProgress, frame: SseFrame)
    requires
        frame.chunk is None || frame.chunk->0.choices@.len() == 0
            || frame.chunk->0.choices@[0].delta.content is None
            || frame.chunk->0.choices@[0].delta.content->0@.len() == 0,
        frame.data@ != DONE_MARKER@,
    ensures
        emitted(p, frame) is None,
        advance(p, frame) == p,
{
}

/// `[DONE]` ends the stream: it hands out nothing, keeps the text, and marks
/// the stream finished.
pub proof fn lemma_done_ends_stream(p: StreamProgress, frame: SseFrame)
    requires
        frame.data@ == DONE_MARKER@,
    ensures
        emitted(p, frame) is None,
        advance(p, frame).text == p.text,
        advance(p, frame).finished,
{
}

/// Once `[DONE]` has been seen, later frames change nothing and hand out nothing.
pub proof fn lemma_nothing_after_done(p: StreamProgress, frames: Seq<SseFrame>)
    requires
        p.finished,
    ensures
        advance_all(p, frames) == p,
        fragments(p, frames).len() == 0,
    decreases frames.len(),
{
    if frames.len() > 0 {
        lemma_nothing_after_done(p, frames.drop_last());
    }
}

} // verus!
