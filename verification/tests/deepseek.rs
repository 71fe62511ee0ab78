use virex::deepseek::{
    daily_limit_message, error_for_status, rewrite_plan, Delta, DeepSeekError, FrameOutcome,
    RewriteRequest, RewriteStream, SseFrame, StreamChoice, StreamChunk,
};
use virex::events::StreamEvent;
use virex::json::JsonValue;
use virex::settings::Settings;

fn s(x: &str) -> String {
    x.to_string()
}

fn frame(data: &str, content: Option<Option<&str>>) -> SseFrame {
    SseFrame {
        data: s(data),
        chunk: content.map(|c| StreamChunk {
            choices: vec![StreamChoice { delta: Delta { content: c.map(s) } }],
        }),
    }
}

#[test]
fn serializes_with_kind_tag() {
    let json = StreamEvent::Delta { text: "hi".into() }.to_json();
    assert_eq!(json, r#"{"kind":"delta","text":"hi"}"#);

    let json = StreamEvent::Done { full: "done".into() }.to_json();
    assert_eq!(json, r#"{"kind":"done","full":"done"}"#);

    let json = StreamEvent::Error { message: "boom".into() }.to_json();
    assert_eq!(json, r#"{"kind":"error","message":"boom"}"#);
}

#[test]
fn start_event_escapes_its_text() {
    let e = StreamEvent::Start { original: "x\"y\\z\n\u{1}".into() };
    assert_eq!(e.to_json(), r#"{"kind":"start","original":"x\"y\\z\n\u0001"}"#);
    let back: serde_json::Value = serde_json::from_str(&e.to_json()).unwrap();
    assert_eq!(back["original"], "x\"y\\z\n\u{1}");
}

#[test]
fn plan_addresses_chat_completions() {
    let mut settings = Settings::default();
    settings.base_url = s("https://api.example//");
    settings.timeout_secs = 2;
    let req = RewriteRequest { api_key: "sk-1", settings: &settings, input: "fix me" };
    let plan = rewrite_plan(&req);
    assert_eq!(plan.url, "https://api.example/chat/completions");
    assert_eq!(plan.timeout_secs, 5);
    assert_eq!(plan.api_key, "sk-1");
    assert_eq!(plan.model, "deepseek-chat");
    assert_eq!(f32::from_bits(plan.temperature_bits), 0.2f32);
    assert_eq!(plan.input, "fix me");
    assert_eq!(plan.system, settings.system_prompt);

    settings.timeout_secs = 60;
    let plan = rewrite_plan(&RewriteRequest { api_key: "k", settings: &settings, input: "" });
    assert_eq!(plan.timeout_secs, 60);
    assert_eq!(Settings::default().base_url, "https://api.deepseek.com");
    let plan = rewrite_plan(&RewriteRequest { api_key: "k", settings: &Settings::default(), input: "" });
    assert_eq!(plan.url, "https://api.deepseek.com/chat/completions");
}

#[test]
fn daily_limit_uses_body_message() {
    match error_for_status(429, r#"{"error":true,"message":"Come back tomorrow"}"#) {
        DeepSeekError::DailyLimit(m) => assert_eq!(m, "Come back tomorrow"),
        _ => panic!("expected the daily limit"),
    }
    match error_for_status(429, r#"{"message":5}"#) {
        DeepSeekError::DailyLimit(m) => {
            assert_eq!(m, "You've hit today's free limit. Upgrade to Pro for unlimited rewrites.")
        }
        _ => panic!("expected the daily limit"),
    }
    match error_for_status(429, "not json") {
        DeepSeekError::DailyLimit(m) => assert!(m.starts_with("You've hit")),
        _ => panic!("expected the daily limit"),
    }
    match error_for_status(429, r#"["message"]"#) {
        DeepSeekError::DailyLimit(m) => assert!(m.starts_with("You've hit")),
        _ => panic!("expected the daily limit"),
    }
}

#[test]
fn daily_limit_message_from_decoded_body() {
    let body = JsonValue::Object(vec![
        (s("error"), JsonValue::Bool(true)),
        (s("message"), JsonValue::Str(s("Later"))),
    ]);
    assert_eq!(daily_limit_message(Some(&body)), "Later");
    let numeric = JsonValue::Object(vec![(s("message"), JsonValue::Number(s("5")))]);
    assert!(daily_limit_message(Some(&numeric)).starts_with("You've hit"));
    assert!(daily_limit_message(None).starts_with("You've hit"));
}

#[test]
fn api_error_keeps_first_300_chars() {
    let raw: String = "é".repeat(400);
    match error_for_status(500, &raw) {
        DeepSeekError::Api { status, message } => {
            assert_eq!(status, 500);
            assert_eq!(message.chars().count(), 300);
        }
        _ => panic!("expected an API error"),
    }
    let e = error_for_status(404, "nope");
    assert_eq!(e.message(), "API error (404): nope");
}

#[test]
fn error_messages() {
    assert_eq!(DeepSeekError::Timeout.message(), "request timed out");
    assert_eq!(DeepSeekError::Network(s("reset")).message(), "network error: reset");
    assert_eq!(DeepSeekError::Parse.message(), "malformed response from API");
    assert_eq!(DeepSeekError::DailyLimit(s("limit")).message(), "limit");
    assert_eq!(DeepSeekError::Api { status: 7, message: s("m") }.message(), "API error (7): m");
}

#[test]
fn stream_concatenates_fragments_until_done() {
    let mut st = RewriteStream::new();
    let frames = vec![
        frame(": keep-alive", None),
        frame("{}", Some(Some("Hel"))),
        frame("{}", Some(Some(""))),
        frame("{}", Some(None)),
        frame("{}", Some(Some("lo"))),
        frame("[DONE]", None),
        frame("{}", Some(Some("ignored"))),
    ];
    let mut shown = String::new();
    let mut stopped = false;
    for f in &frames {
        match st.on_frame(f) {
            FrameOutcome::Fragment(t) => shown.push_str(&t),
            FrameOutcome::Ignored => {}
            FrameOutcome::Finished => {
                stopped = true;
            }
        }
    }
    assert!(stopped);
    assert_eq!(shown, "Hello");
    assert_eq!(st.finish().ok().unwrap(), "Hello");
}

#[test]
fn empty_stream_is_a_parse_error() {
    let mut st = RewriteStream::new();
    let empty = SseFrame { data: s("{}"), chunk: Some(StreamChunk { choices: vec![] }) };
    assert!(matches!(st.on_frame(&empty), FrameOutcome::Ignored));
    assert!(matches!(st.on_frame(&frame("[DONE]", None)), FrameOutcome::Finished));
    assert!(matches!(st.finish(), Err(DeepSeekError::Parse)));
}
