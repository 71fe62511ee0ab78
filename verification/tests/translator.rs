use virex::deepseek::DeepSeekError;
use virex::json::JsonValue;
use virex::settings::Settings;
use virex::translator::{
    generate_native_reply, google_translate_query, google_translate_response, google_translate_result,
    lang_code_to_name,
    language_name_for, translate_and_paraphrase, ReplyNext, ReplyStart, TranslateError,
    TranslateNext, TranslateStart, GTX_URL,
};

fn s(x: &str) -> String {
    x.to_string()
}

fn arr(v: Vec<JsonValue>) -> JsonValue {
    JsonValue::Array(v)
}

fn text(x: &str) -> JsonValue {
    JsonValue::Str(s(x))
}

fn params(q: &virex::translator::GtxQuery) -> Vec<(String, String)> {
    q.params.clone()
}

#[test]
fn maps_language_codes_correctly() {
    assert_eq!(lang_code_to_name("id"), "Indonesian");
    assert_eq!(lang_code_to_name("es"), "Spanish");
    assert_eq!(lang_code_to_name("ja"), "Japanese");
    assert_eq!(lang_code_to_name("zh-CN"), "Chinese");
}

#[test]
fn google_translate_rejects_empty_input() {
    let res = google_translate_query("   ", "en");
    assert!(matches!(res, Err(TranslateError::EmptyText)));
}

#[test]
fn language_codes_ignore_case_and_region() {
    assert_eq!(lang_code_to_name("ZH-tw"), "Chinese");
    assert_eq!(lang_code_to_name("EN"), "English");
    assert_eq!(lang_code_to_name("ind"), "Indonesian");
    assert_eq!(lang_code_to_name("pt-BR"), "Portuguese");
    assert_eq!(lang_code_to_name("xx"), "the native language of the message");
    assert_eq!(lang_code_to_name(""), "the native language of the message");
    assert_eq!(language_name_for("sv"), "Swedish");
    assert_eq!(language_name_for("SV"), "the native language of the message");
    assert_eq!(lang_code_to_name("PT-br"), lang_code_to_name("pt"));
    assert_eq!(lang_code_to_name("PT-br"), "Portuguese");
    assert_eq!(lang_code_to_name("-es"), "the native language of the message");
    assert_eq!(lang_code_to_name("Es-"), "Spanish");
}

#[test]
fn translate_query_trims_and_orders_params() {
    let q = google_translate_query("  hola mundo \n", "en").ok().unwrap();
    assert_eq!(q.url, GTX_URL);
    assert_eq!(
        params(&q),
        vec![
            (s("client"), s("gtx")),
            (s("sl"), s("auto")),
            (s("tl"), s("en")),
            (s("dt"), s("t")),
            (s("q"), s("hola mundo")),
        ]
    );
    assert!(matches!(google_translate_query("\u{3000}\t", "en"), Err(TranslateError::EmptyText)));
}

#[test]
fn translate_result_concatenates_sentences() {
    let body = arr(vec![
        arr(vec![
            arr(vec![text("Hello "), text("Hola "), JsonValue::Null]),
            arr(vec![JsonValue::Number(s("3"))]),
            arr(vec![text("world"), text("mundo")]),
        ]),
        JsonValue::Null,
        text("es"),
    ]);
    let (t, d) = google_translate_result(200, Some(&body)).ok().unwrap();
    assert_eq!(t, "Hello world");
    assert_eq!(d, "es");
}

#[test]
fn translate_result_defaults_language_and_reports_errors() {
    let body = arr(vec![arr(vec![arr(vec![text("Hi")])])]);
    let (t, d) = google_translate_result(204, Some(&body)).ok().unwrap();
    assert_eq!((t.as_str(), d.as_str()), ("Hi", "unknown"));
    assert!(matches!(google_translate_result(503, Some(&body)), Err(TranslateError::ApiError { status: 503 })));
    assert!(matches!(google_translate_result(200, None), Err(TranslateError::ParseError)));
    let empty = arr(vec![arr(vec![])]);
    assert!(matches!(google_translate_result(200, Some(&empty)), Err(TranslateError::ParseError)));
    let object = JsonValue::Object(vec![(s("0"), text("x"))]);
    assert!(matches!(google_translate_result(200, Some(&object)), Err(TranslateError::ParseError)));
}

#[test]
fn translate_error_messages() {
    assert_eq!(TranslateError::EmptyText.message(), "No text provided");
    assert_eq!(TranslateError::Network(s("boom")).message(), "Network error: boom");
    assert_eq!(TranslateError::ApiError { status: 429 }.message(), "Translation API error (429)");
    assert_eq!(TranslateError::ParseError.message(), "Failed to parse translation response");
    assert_eq!(
        TranslateError::DeepSeek(DeepSeekError::Timeout).message(),
        "DeepSeek error: request timed out"
    );
}

#[test]
fn translation_refined_when_enabled_with_key() {
    let settings = Settings::default();
    let start = translate_and_paraphrase("sk-1", &settings, " hola ", "en");
    let pending = match start {
        TranslateStart::Fetch { query, pending } => {
            assert_eq!(query.params[4], (s("q"), s("hola")));
            pending
        }
        TranslateStart::Finished(_) => panic!("expected a request"),
    };
    let next = pending.on_translation(Ok((s("hello"), s("es"))));
    let refining = match next {
        TranslateNext::Refine { prompt, pending } => {
            assert!(prompt.ends_with("\n\nText:\nhello"));
            assert!(prompt.contains("semantic fidelity in en.\n"));
            pending
        }
        TranslateNext::Finished(_) => panic!("expected a refinement"),
    };
    let done = refining.on_refinement(Ok(s("Hello.")));
    assert!(done.fallback_fragment.is_none());
    let res = done.result.ok().unwrap();
    assert!(res.success);
    assert_eq!(res.translation, "Hello.");
    assert_eq!(res.raw_translation, "hello");
    assert_eq!(res.detected_language, "es");
    assert_eq!(res.target_language, "en");
}

#[test]
fn translation_falls_back_to_raw() {
    let settings = Settings::default();
    let pending = match translate_and_paraphrase("sk-1", &settings, "hola", "fr") {
        TranslateStart::Fetch { pending, .. } => pending,
        TranslateStart::Finished(_) => panic!("expected a request"),
    };
    let refining = match pending.on_translation(Ok((s("salut"), s("es")))) {
        TranslateNext::Refine { pending, .. } => pending,
        TranslateNext::Finished(_) => panic!("expected a refinement"),
    };
    let done = refining.on_refinement(Err(DeepSeekError::Parse));
    assert_eq!(done.fallback_fragment.as_deref(), Some("salut"));
    assert_eq!(done.result.ok().unwrap().translation, "salut");

    // Without a key the raw translation is the result right away.
    let pending = match translate_and_paraphrase("  ", &settings, "hola", "fr") {
        TranslateStart::Fetch { pending, .. } => pending,
        TranslateStart::Finished(_) => panic!("expected a request"),
    };
    match pending.on_translation(Ok((s("salut"), s("es")))) {
        TranslateNext::Finished(f) => {
            assert_eq!(f.fallback_fragment.as_deref(), Some("salut"));
            let res = f.result.ok().unwrap();
            assert_eq!(res.translation, "salut");
            assert_eq!(res.raw_translation, "salut");
        }
        TranslateNext::Refine { .. } => panic!("no refinement without a key"),
    }
}

#[test]
fn translation_errors_pass_through() {
    let mut settings = Settings::default();
    settings.paraphrase_translation = false;
    match translate_and_paraphrase("sk", &settings, " ", "en") {
        TranslateStart::Finished(f) => assert!(matches!(f.result, Err(TranslateError::EmptyText))),
        TranslateStart::Fetch { .. } => panic!("blank text is refused"),
    }
    let pending = match translate_and_paraphrase("sk", &settings, "x", "en") {
        TranslateStart::Fetch { pending, .. } => pending,
        TranslateStart::Finished(_) => panic!("expected a request"),
    };
    match pending.on_translation(Err(TranslateError::ApiError { status: 500 })) {
        TranslateNext::Finished(f) => {
            assert!(f.fallback_fragment.is_none());
            assert!(matches!(f.result, Err(TranslateError::ApiError { status: 500 })));
        }
        TranslateNext::Refine { .. } => panic!("no refinement after a failure"),
    }
}

#[test]
fn native_reply_uses_model_then_falls_back() {
    assert!(matches!(generate_native_reply("k", "  ", None), ReplyStart::Finished(_)));
    let pending = match generate_native_reply("k", " apa kabar ", None) {
        ReplyStart::Detect { query, pending } => {
            assert_eq!(query.params[2], (s("tl"), s("en")));
            assert_eq!(query.params[4], (s("q"), s("apa kabar")));
            pending
        }
        ReplyStart::Finished(_) => panic!("expected detection"),
    };
    let writing = match pending.on_detection(Ok((s("how are you"), s("id")))) {
        ReplyNext::Write { prompt, pending } => {
            assert!(prompt.starts_with("You are an expert native speaker and writing assistant in Indonesian.\n"));
            assert!(prompt.ends_with("Message/Draft:\napa kabar"));
            pending
        }
        _ => panic!("expected the model"),
    };
    let fallback = match writing.on_reply(Err(DeepSeekError::Timeout)) {
        ReplyNext::Translate { query, pending } => {
            assert_eq!(query.params[2], (s("tl"), s("id")));
            pending
        }
        _ => panic!("expected the fallback"),
    };
    let done = fallback.on_translation(Ok((s("baik"), s("id"))));
    assert_eq!(done.fallback_fragment.as_deref(), Some("baik"));
    let res = done.result.ok().unwrap();
    assert_eq!(res.reply, "baik");
    assert_eq!(res.detected_language, "id");
    assert_eq!(res.detected_language_name, "Indonesian");
}

#[test]
fn native_reply_without_key_and_with_override() {
    let pending = match generate_native_reply("", "hello", Some("ja")) {
        ReplyStart::Detect { pending, .. } => pending,
        ReplyStart::Finished(_) => panic!("expected detection"),
    };
    let fallback = match pending.on_detection(Err(TranslateError::Network(s("down")))) {
        ReplyNext::Translate { query, pending } => {
            assert_eq!(query.params[2], (s("tl"), s("ja")));
            pending
        }
        _ => panic!("no model without a key"),
    };
    let done = fallback.on_translation(Ok((s("こんにちは"), s("en"))));
    let res = done.result.ok().unwrap();
    assert_eq!(res.detected_language, "unknown");
    assert_eq!(res.detected_language_name, "Japanese");
    let failed = match generate_native_reply("", "hello", None) {
        ReplyStart::Detect { pending, .. } => pending,
        ReplyStart::Finished(_) => panic!("expected detection"),
    };
    match failed.on_detection(Ok((s("hello"), s("en")))) {
        ReplyNext::Translate { pending, .. } => {
            let done = pending.on_translation(Err(TranslateError::ParseError));
            assert!(matches!(done.result, Err(TranslateError::ParseError)));
        }
        _ => panic!("expected the fallback"),
    }
}

#[test]
fn google_translate_response_decodes_the_body() {
    let raw = r#"[[["Hello ","Hola ",null],["world","mundo"]],null,"es"]"#;
    let (t, d) = google_translate_response(200, Some(raw)).ok().unwrap();
    assert_eq!(t, "Hello world");
    assert_eq!(d, "es");
    let (_, d) = google_translate_response(200, Some(r#"[[["Hi"]],null,3]"#)).ok().unwrap();
    assert_eq!(d, "unknown");
    assert!(matches!(google_translate_response(200, Some("<html>")), Err(TranslateError::ParseError)));
    assert!(matches!(google_translate_response(200, None), Err(TranslateError::ParseError)));
    assert!(matches!(google_translate_response(200, Some("[[]]")), Err(TranslateError::ParseError)));
    assert!(matches!(
        google_translate_response(429, Some(raw)),
        Err(TranslateError::ApiError { status: 429 })
    ));
}
