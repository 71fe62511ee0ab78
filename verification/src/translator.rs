//! Translation through the Google Translate web endpoint, refined by the
//! rewrite model, and native-language replies.
//!
//! Each flow is a sequence of steps: the library says which request to make
//! next, the caller makes it and hands back the outcome, and the library
//! decides what follows, down to the final result.

use vstd::prelude::*;

use crate::deepseek::{deepseek_error_text, DeepSeekError};
use crate::json::{json_of, parse_json, JsonValue};
use crate::settings::Settings;
use crate::text::{
    before_first, blank, decimal, decimal_string, first_segment, is_blank, owned, trim, trim_seq,
};

verus! {

/// Why a translation or reply failed.
pub enum TranslateError {
    /// The text was empty or white space only.
    EmptyText,
    /// The translation request could not be made.
    Network(String),
    /// The translation endpoint answered with a non-success status.
    ApiError { status: u16 },
    /// The translation response held no translation.
    ParseError,
    /// The rewrite model failed.
    DeepSeek(DeepSeekError),
}

/// The user-facing text of an error.
pub open spec fn translate_error_text(e: TranslateError) -> Seq<char> {
    match e {
        TranslateError::EmptyText => "No text provided"@,
        TranslateError::Network(m) => "Network error: "@ + m@,
        TranslateError::ApiError { status } => "Translation API error ("@ + decimal(status as nat)
            + ")"@,
        TranslateError::ParseError => "Failed to parse translation response"@,
        TranslateError::DeepSeek(d) => "DeepSeek error: "@ + deepseek_error_text(d),
    }
}

impl TranslateError {
    /// The user-facing text of this error.
    pub fn message(&self) -> (r: String)
        ensures
            r@ == translate_error_text(*self),
    {
        match self {
            TranslateError::EmptyText => owned("No text provided"),
            TranslateError::Network(m) => {
                let mut s = owned("Network error: ");
                s.append(m.as_str());
                s
            },
            TranslateError::ApiError { status } => {
                let mut s = owned("Translation API error (");
                let code = decimal_string(*status as u64);
                s.append(code.as_str());
                s.append(")");
                s
            },
            TranslateError::ParseError => owned("Failed to parse translation response"),
            TranslateError::DeepSeek(d) => {
                let mut s = owned("DeepSeek error: ");
                let inner = d.message();
                s.append(inner.as_str());
                s
            },
        }
    }
}

/// The outcome of a translation.
pub struct TranslationResult {
    pub success: bool,
    /// The final text: the refined translation, or the raw one.
    pub translation: String,
    /// What the translation endpoint returned.
    pub raw_translation: String,
    pub detected_language: String,
    pub target_language: String,
}

/// The outcome of a native-language reply.
pub struct NativeReplyResult {
    pub success: bool,
    pub reply: String,
    pub detected_language: String,
    /// Human-readable name of the language the reply is in.
    pub detected_language_name: String,
}

/// The lower-case form of `s` per Unicode (what `str::to_lowercase` gives).
/// Which characters change, and into what, is Unicode's case mapping and is
/// not spelled out here.
pub uninterp spec fn lowercase_of(s: Seq<char>) -> Seq<char>;

/// An ASCII capital letter turned into its small letter; any other character
/// unchanged.
pub open spec fn ascii_lower_char(c: char) -> char {
    if 'A' <= c <= 'Z' {
        ((c as u32) + 32) as char
    } else {
        c
    }
}

/// `s` with its ASCII capital letters turned into small letters.
pub open spec fn ascii_lower(s: Seq<char>) -> Seq<char> {
    s.map_values(|c: char| ascii_lower_char(c))
}

/// Lower-cases `s` with `str::to_lowercase`. Trusted to return the same
/// characters for the same input, as [`lowercase_of`] of them, and, for ASCII
/// text, the text with `A`..`Z` turned into `a`..`z` and all else kept, which
/// is Unicode's lower-case mapping on ASCII. Nothing is claimed about the
/// mapping beyond ASCII.
#[verifier::external_body]
fn to_lowercase(s: &str) -> (r: String)
    ensures
        r@ == lowercase_of(s@),
        vstd::utf8::is_ascii_chars(s@) ==> r@ == ascii_lower(s@),
{
    s.to_lowercase()
}

/// The language name for an already lower-cased primary language code.
pub open spec fn language_name(code: Seq<char>) -> Seq<char> {
    if code == "id"@ || code == "ind"@ {
        "Indonesian"@
    } else if code == "es"@ {
        "Spanish"@
    } else if code == "ja"@ {
        "Japanese"@
    } else if code == "zh"@ {
        "Chinese"@
    } else if code == "fr"@ {
        "French"@
    } else if code == "de"@ {
        "German"@
    } else if code == "ko"@ {
        "Korean"@
    } else if code == "pt"@ {
        "Portuguese"@
    } else if code == "ru"@ {
        "Russian"@
    } else if code == "ar"@ {
        "Arabic"@
    } else if code == "hi"@ {
        "Hindi"@
    } else if code == "th"@ {
        "Thai"@
    } else if code == "vi"@ {
        "Vietnamese"@
    } else if code == "nl"@ {
        "Dutch"@
    } else if code == "it"@ {
        "Italian"@
    } else if code == "tr"@ {
        "Turkish"@
    } else if code == "pl"@ {
        "Polish"@
    } else if code == "sv"@ {
        "Swedish"@
    } else if code == "en"@ {
        "English"@
    } else {
        "the native language of the message"@
    }
}

/// Each code of the table names its own language: `id` and `ind` Indonesian,
/// `es` Spanish, `ja` Japanese, `zh` Chinese, `fr` French, `de` German, `ko`
/// Korean, `pt` Portuguese, `ru` Russian, `ar` Arabic, `hi` Hindi, `th` Thai,
/// `vi` Vietnamese, `nl` Dutch, `it` Italian, `tr` Turkish, `pl` Polish, `sv`
/// Swedish and `en` English.
pub proof fn lemma_language_table()
    ensures
        language_name("id"@) == "Indonesian"@,
        language_name("ind"@) == "Indonesian"@,
        language_name("es"@) == "Spanish"@,
        language_name("ja"@) == "Japanese"@,
        language_name("zh"@) == "Chinese"@,
        language_name("fr"@) == "French"@,
        language_name("de"@) == "German"@,
        language_name("ko"@) == "Korean"@,
        language_name("pt"@) == "Portuguese"@,
        language_name("ru"@) == "Russian"@,
        language_name("ar"@) == "Arabic"@,
        language_name("hi"@) == "Hindi"@,
        language_name("th"@) == "Thai"@,
        language_name("vi"@) == "Vietnamese"@,
        language_name("nl"@) == "Dutch"@,
        language_name("it"@) == "Italian"@,
        language_name("tr"@) == "Turkish"@,
        language_name("pl"@) == "Polish"@,
        language_name("sv"@) == "Swedish"@,
        language_name("en"@) == "English"@,
{
    reveal_strlit("id");
    reveal_strlit("ind");
    reveal_strlit("es");
    reveal_strlit("ja");
    reveal_strlit("zh");
    reveal_strlit("fr");
    reveal_strlit("de");
    reveal_strlit("ko");
    reveal_strlit("pt");
    reveal_strlit("ru");
    reveal_strlit("ar");
    reveal_strlit("hi");
    reveal_strlit("th");
    reveal_strlit("vi");
    reveal_strlit("nl");
    reveal_strlit("it");
    reveal_strlit("tr");
    reveal_strlit("pl");
    reveal_strlit("sv");
    reveal_strlit("en");
    assert("id"@.len() == 2 && "id"@[0] == 'i' && "id"@[1] == 'd');
    assert("ind"@.len() == 3 && "ind"@[0] == 'i' && "ind"@[1] == 'n');
    assert("es"@.len() == 2 && "es"@[0] == 'e' && "es"@[1] == 's');
    assert("ja"@.len() == 2 && "ja"@[0] == 'j' && "ja"@[1] == 'a');
    assert("zh"@.len() == 2 && "zh"@[0] == 'z' && "zh"@[1] == 'h');
    assert("fr"@.len() == 2 && "fr"@[0] == 'f' && "fr"@[1] == 'r');
    assert("de"@.len() == 2 && "de"@[0] == 'd' && "de"@[1] == 'e');
    assert("ko"@.len() == 2 && "ko"@[0] == 'k' && "ko"@[1] == 'o');
    assert("pt"@.len() == 2 && "pt"@[0] == 'p' && "pt"@[1] == 't');
    assert("ru"@.len() == 2 && "ru"@[0] == 'r' && "ru"@[1] == 'u');
    assert("ar"@.len() == 2 && "ar"@[0] == 'a' && "ar"@[1] == 'r');
    assert("hi"@.len() == 2 && "hi"@[0] == 'h' && "hi"@[1] == 'i');
    assert("th"@.len() == 2 && "th"@[0] == 't' && "th"@[1] == 'h');
    assert("vi"@.len() == 2 && "vi"@[0] == 'v' && "vi"@[1] == 'i');
    assert("nl"@.len() == 2 && "nl"@[0] == 'n' && "nl"@[1] == 'l');
    assert("it"@.len() == 2 && "it"@[0] == 'i' && "it"@[1] == 't');
    assert("tr"@.len() == 2 && "tr"@[0] == 't' && "tr"@[1] == 'r');
    assert("pl"@.len() == 2 && "pl"@[0] == 'p' && "pl"@[1] == 'l');
    assert("sv"@.len() == 2 && "sv"@[0] == 's' && "sv"@[1] == 'v');
    assert("en"@.len() == 2 && "en"@[0] == 'e' && "en"@[1] == 'n');
}

/// A code outside the table gets the generic name.
pub proof fn lemma_unlisted_code_generic(code: Seq<char>)
    requires
        code != "id"@ && code != "ind"@ && code != "es"@ && code != "ja"@ && code != "zh"@ && code
            != "fr"@ && code != "de"@ && code != "ko"@ && code != "pt"@ && code != "ru"@ && code
            != "ar"@ && code != "hi"@ && code != "th"@ && code != "vi"@ && code != "nl"@ && code
            != "it"@ && code != "tr"@ && code != "pl"@ && code != "sv"@ && code != "en"@,
    ensures
        language_name(code) == "the native language of the message"@,
{
}

/// A lower-case primary code names its table language alone and with any
/// region after a `-`: with [`lemma_language_table`], `"de"` and `"de-DE"`
/// both name German.
pub proof fn lemma_primary_code_names(primary: Seq<char>, region: Seq<char>)
    requires
        !primary.contains('-'),
        ascii_lower(primary) == primary,
    ensures
        ascii_code_name(primary) == language_name(primary),
        ascii_code_name(primary + seq!['-'] + region) == language_name(primary),
{
    lemma_before_first_of_prefix(primary, region);
}

/// The language name for a lower-cased primary language code such as `"es"`.
pub fn language_name_for(code: &str) -> (r: &'static str)
    ensures
        r@ == language_name(code@),
{
    let c = owned(code);
    if c == owned("id") || c == owned("ind") {
        "Indonesian"
    } else if c == owned("es") {
        "Spanish"
    } else if c == owned("ja") {
        "Japanese"
    } else if c == owned("zh") {
        "Chinese"
    } else if c == owned("fr") {
        "French"
    } else if c == owned("de") {
        "German"
    } else if c == owned("ko") {
        "Korean"
    } else if c == owned("pt") {
        "Portuguese"
    } else if c == owned("ru") {
        "Russian"
    } else if c == owned("ar") {
        "Arabic"
    } else if c == owned("hi") {
        "Hindi"
    } else if c == owned("th") {
        "Thai"
    } else if c == owned("vi") {
        "Vietnamese"
    } else if c == owned("nl") {
        "Dutch"
    } else if c == owned("it") {
        "Italian"
    } else if c == owned("tr") {
        "Turkish"
    } else if c == owned("pl") {
        "Polish"
    } else if c == owned("sv") {
        "Swedish"
    } else if c == owned("en") {
        "English"
    } else {
        "the native language of the message"
    }
}

/// The name of the language an ISO code such as `"zh-CN"` denotes: its part
/// before the first `-`, lower-cased, looked up in the table of
/// [`language_name`].
pub open spec fn code_name(code: Seq<char>) -> Seq<char> {
    language_name(lowercase_of(before_first(code, '-')))
}

/// The name an ASCII language code denotes: its part before the first `-`,
/// with ASCII letters lower-cased, looked up in the table of [`language_name`].
pub open spec fn ascii_code_name(code: Seq<char>) -> Seq<char> {
    language_name(ascii_lower(before_first(code, '-')))
}

/// Convert an ISO language code into a human-readable language name.
pub fn lang_code_to_name(code: &str) -> (r: &'static str)
    ensures
        r@ == code_name(code@),
        vstd::utf8::is_ascii_chars(code@) ==> r@ == ascii_code_name(code@),
{
    let primary = first_segment(code, '-');
    proof {
        lemma_before_first_is_prefix(code@, '-');
    }
    let clean = to_lowercase(primary.as_str());
    language_name_for(clean.as_str())
}

/// The part before the first `sep` is a prefix of `s` without `sep` in it.
proof fn lemma_before_first_is_prefix(s: Seq<char>, sep: char)
    ensures
        before_first(s, sep).len() <= s.len(),
        forall|i: int|
            0 <= i < before_first(s, sep).len() ==> #[trigger] before_first(s, sep)[i] == s[i]
                && s[i] != sep,
    decreases s.len(),
{
    if s.len() > 0 && s[0] != sep {
        lemma_before_first_is_prefix(s.drop_first(), sep);
        let rest = before_first(s.drop_first(), sep);
        assert forall|i: int| 0 <= i < before_first(s, sep).len() implies #[trigger] before_first(
            s,
            sep,
        )[i] == s[i] && s[i] != sep by {
            if i > 0 {
                assert(before_first(s, sep)[i] == rest[i - 1]);
            }
        }
    }
}

/// Lower-casing an ASCII character keeps it ASCII, keeps `-` and nothing else
/// as `-`, and lower-casing again changes nothing.
proof fn lemma_ascii_lower_char(c: char)
    requires
        '\0' <= c <= '\u{7f}',
    ensures
        '\0' <= ascii_lower_char(c) <= '\u{7f}',
        (ascii_lower_char(c) == '-') == (c == '-'),
        ascii_lower_char(ascii_lower_char(c)) == ascii_lower_char(c),
{
}

/// Letter case and everything from the first `-` on never change the language
/// name: an ASCII code such as `"PT-br"` names the same language as its
/// lower-cased part before the first `-`, here `"pt"`.
pub proof fn lemma_case_and_region_ignored(code: Seq<char>)
    requires
        vstd::utf8::is_ascii_chars(code),
    ensures
        vstd::utf8::is_ascii_chars(ascii_lower(before_first(code, '-'))),
        ascii_code_name(ascii_lower(before_first(code, '-'))) == ascii_code_name(code),
{
    let p = before_first(code, '-');
    let q = ascii_lower(p);
    lemma_before_first_is_prefix(code, '-');
    assert forall|i: int| 0 <= i < q.len() implies '\0' <= #[trigger] q[i] <= '\u{7f}' && q[i]
        != '-' && ascii_lower_char(q[i]) == q[i] by {
        assert(p[i] == code[i]);
        lemma_ascii_lower_char(p[i]);
    }
    assert(!q.contains('-'));
    lemma_before_first_of_prefix(q, Seq::empty());
    assert(ascii_lower(q) =~= q);
}

/// A region suffix after `-` never changes the language name.
pub proof fn lemma_region_suffix_ignored(code: Seq<char>, region: Seq<char>)
    requires
        !code.contains('-'),
    ensures
        code_name(code + seq!['-'] + region) == code_name(code),
{
    lemma_before_first_of_prefix(code, region);
}

proof fn lemma_before_first_of_prefix(code: Seq<char>, region: Seq<char>)
    requires
        !code.contains('-'),
    ensures
        before_first(code + seq!['-'] + region, '-') == code,
        before_first(code, '-') == code,
    decreases code.len(),
{
    let s = code + seq!['-'] + region;
    if code.len() == 0 {
        assert(s[0] == '-');
    } else {
        assert(code[0] != '-') by {
            assert(code.contains(code[0]));
        }
        let rest = code.drop_first();
        assert(!rest.contains('-')) by {
            if rest.contains('-') {
                let k = choose|k: int| 0 <= k < rest.len() && rest[k] == '-';
                assert(code[k + 1] == '-');
            }
        }
        lemma_before_first_of_prefix(rest, region);
        assert(s.drop_first() =~= rest + seq!['-'] + region);
        assert(s[0] == code[0]);
        assert(seq![code[0]] + rest =~= code);
    }
}

/// The Google Translate web endpoint.
pub const GTX_URL: &'static str = "https://translate.googleapis.com/translate_a/single";

/// A Google Translate request: the endpoint and its query parameters, in order.
pub struct GtxQuery {
    pub url: String,
    pub params: Vec<(String, String)>,
}

/// The query parameters as character sequences.
pub open spec fn params_view(params: Seq<(String, String)>) -> Seq<(Seq<char>, Seq<char>)> {
    params.map_values(|p: (String, String)| (p.0@, p.1@))
}

/// The query for translating `q` into `target`, from any source language.
pub open spec fn gtx_params(target: Seq<char>, q: Seq<char>) -> Seq<(Seq<char>, Seq<char>)> {
    seq![
        ("client"@, "gtx"@),
        ("sl"@, "auto"@),
        ("tl"@, target),
        ("dt"@, "t"@),
        ("q"@, q),
    ]
}

/// The request for `q` into `target`.
fn gtx_query(target: &str, q: String) -> (r: GtxQuery)
    ensures
        r.url@ == GTX_URL@,
        params_view(r.params@) == gtx_params(target@, q@),
{
    let mut params: Vec<(String, String)> = Vec::new();
    params.push((owned("client"), owned("gtx")));
    params.push((owned("sl"), owned("auto")));
    params.push((owned("tl"), owned(target)));
    params.push((owned("dt"), owned("t")));
    params.push((owned("q"), q));
    assert(params_view(params@) =~= gtx_params(target@, q@));
    GtxQuery { url: owned(GTX_URL), params }
}

/// The Google Translate request for `text` into `target_lang`: the text is
/// trimmed, and a blank one is refused before any request is made.
pub fn google_translate_query(text: &str, target_lang: &str) -> (r: Result<
    GtxQuery,
    TranslateError,
>)
    ensures
        is_blank(text@) ==> r == Err::<GtxQuery, TranslateError>(TranslateError::EmptyText),
        !is_blank(text@) ==> (r matches Ok(q) && q.url@ == GTX_URL@ && params_view(q.params@)
            == gtx_params(target_lang@, trim_seq(text@))),
{
    let trimmed = trim(text);
    if trimmed.as_str().is_empty() {
        Err(TranslateError::EmptyText)
    } else {
        Ok(gtx_query(target_lang, trimmed))
    }
}

/// The text of one sentence entry: its first element when that is a string.
pub open spec fn sentence_text(s: JsonValue) -> Seq<char> {
    match s.item(0) {
        Some(v) => match v.text() {
            Some(t) => t,
            None => Seq::empty(),
        },
        None => Seq::empty(),
    }
}

/// The concatenated text of the sentence entries `v`.
pub open spec fn sentences_text(v: Seq<JsonValue>) -> Seq<char>
    decreases v.len(),
{
    if v.len() == 0 {
        Seq::empty()
    } else {
        sentences_text(v.drop_last()) + sentence_text(v.last())
    }
}

/// The translation in a response: the sentence entries of its first element.
pub open spec fn gtx_translation(json: JsonValue) -> Seq<char> {
    match json.item(0) {
        Some(JsonValue::Array(v)) => sentences_text(v@),
        _ => Seq::empty(),
    }
}

/// The detected source language in a response: its third element when that is
/// a string, `"unknown"` otherwise.
pub open spec fn gtx_detected(json: JsonValue) -> Seq<char> {
    match json.item(2) {
        Some(v) => match v.text() {
            Some(t) => t,
            None => "unknown"@,
        },
        None => "unknown"@,
    }
}

/// The translation joins the sentence entries in order with nothing between
/// them: the text of a run of entries followed by another run is the two
/// texts one after the other, and a single entry gives its own text.
pub proof fn lemma_sentences_joined_in_order(a: Seq<JsonValue>, b: Seq<JsonValue>)
    ensures
        sentences_text(a + b) == sentences_text(a) + sentences_text(b),
        forall|e: JsonValue| #[trigger] sentences_text(seq![e]) == sentence_text(e),
    decreases b.len(),
{
    assert forall|e: JsonValue| #[trigger] sentences_text(seq![e]) == sentence_text(e) by {
        assert(seq![e].drop_last() =~= Seq::<JsonValue>::empty());
        assert(seq![e].last() == e);
        assert(sentences_text(Seq::<JsonValue>::empty()) == Seq::<char>::empty());
        assert(Seq::<char>::empty() + sentence_text(e) =~= sentence_text(e));
    }
    if b.len() == 0 {
        assert(a + b =~= a);
    } else {
        lemma_sentences_joined_in_order(a, b.drop_last());
        assert((a + b).drop_last() =~= a + b.drop_last());
    }
}

/// A sentence entry whose first element is a string `t` contributes `t`
/// exactly as sent; an entry whose first element is missing or not a string
/// contributes nothing.
pub proof fn lemma_sentence_text_verbatim(e: JsonValue, t: String)
    ensures
        e.item(0) == Some(JsonValue::Str(t)) ==> sentence_text(e) == t@,
        (e.item(0) is None || !(e.item(0)->0 is Str)) ==> sentence_text(e).len() == 0,
{
}

/// The detected language is element 2 of the response exactly as sent when it
/// is a string `s`, whatever its length or form (`"zh-CN"`, `"haw"`).
pub proof fn lemma_detected_language_verbatim(json: JsonValue, s: String)
    requires
        json.item(2) == Some(JsonValue::Str(s)),
    ensures
        gtx_detected(json) == s@,
{
}

/// The detected language is `"unknown"` only when element 2 of the response is
/// missing or is not a string.
pub proof fn lemma_unknown_language_only_without_string(json: JsonValue)
    ensures
        (gtx_detected(json) == "unknown"@) <== (json.item(2) is None || !(json.item(2)->0 is Str)),
        !(json.item(2) is None || !(json.item(2)->0 is Str)) ==> json.item(2)->0.text() == Some(
            gtx_detected(json),
        ),
{
}

/// Whether an HTTP status is a success (2xx).
pub open spec fn is_success_status(status: u16) -> bool {
    200 <= status <= 299
}

/// The translated text of a response.
fn gtx_collect(json: &JsonValue) -> (r: String)
    ensures
        r@ == gtx_translation(*json),
{
    let mut out = String::new();
    match json.get_index(0) {
        Some(JsonValue::Array(v)) => {
            let n = v.len();
            let mut i: usize = 0;
            while i < n
                invariant
                    i <= n == v@.len(),
                    out@ == sentences_text(v@.take(i as int)),
                decreases n - i,
            {
                assert(v@.take(i + 1).drop_last() =~= v@.take(i as int));
                match v[i].get_index(0) {
                    Some(first) => match first.as_text() {
                        Some(t) => {
                            out.append(t.as_str());
                        },
                        None => {},
                    },
                    None => {},
                }
                i = i + 1;
            }
            assert(v@.take(n as int) =~= v@);
            out
        },
        _ => out,
    }
}

/// The detected language of a response.
fn gtx_language(json: &JsonValue) -> (r: String)
    ensures
        r@ == gtx_detected(*json),
{
    match json.get_index(2) {
        Some(v) => match v.as_text() {
            Some(t) => t.clone(),
            None => owned("unknown"),
        },
        None => owned("unknown"),
    }
}

/// Whether `r` is the outcome of a Google Translate response with `status`
/// whose body decoded to `body` (nothing when it was not JSON): an API error
/// for a non-success status, a parse error when there is no document or no
/// translation in it, and otherwise the translation and detected language.
pub open spec fn gtx_outcome(status: u16, body: Option<JsonValue>, r: Result<(String, String), TranslateError>) -> bool {
    if !is_success_status(status) {
        r == Err::<(String, String), TranslateError>(TranslateError::ApiError { status })
    } else {
        match body {
            None => r == Err::<(String, String), TranslateError>(TranslateError::ParseError),
            Some(b) => if gtx_translation(b).len() == 0 {
                r == Err::<(String, String), TranslateError>(TranslateError::ParseError)
            } else {
                r matches Ok((t, d)) && t@ == gtx_translation(b) && d@ == gtx_detected(b)
            },
        }
    }
}

/// The translation and detected language from a Google Translate response with
/// `status`, whose body decoded to `body` (nothing when it was not JSON).
pub fn google_translate_result(status: u16, body: Option<&JsonValue>) -> (r: Result<
    (String, String),
    TranslateError,
>)
    ensures
        gtx_outcome(
            status,
            match body {
                Some(b) => Some(*b),
                None => None,
            },
            r,
        ),
{
    if status < 200 || status > 299 {
        return Err(TranslateError::ApiError { status });
    }
    match body {
        None => Err(TranslateError::ParseError),
        Some(json) => {
            let translation = gtx_collect(json);
            if translation.as_str().is_empty() {
                Err(TranslateError::ParseError)
            } else {
                let detected = gtx_language(json);
                Ok((translation, detected))
            }
        },
    }
}

/// The translation and detected language from a Google Translate response with
/// `status` whose body reads `raw` (nothing when it could not be read).
pub fn google_translate_response(status: u16, raw: Option<&str>) -> (r: Result<
    (String, String),
    TranslateError,
>)
    ensures
        gtx_outcome(
            status,
            match raw {
                Some(t) => json_of(t@),
                None => None,
            },
            r,
        ),
{
    if status < 200 || status > 299 {
        return Err(TranslateError::ApiError { status });
    }
    let body = match raw {
        Some(t) => parse_json(t),
        None => None,
    };
    google_translate_result(status, body.as_ref())
}

/// The instruction that asks the rewrite model to refine `raw` in `target`.
pub open spec fn refine_prompt(target: Seq<char>, raw: Seq<char>) -> Seq<char> {
    "You are a professional translator and editor. Refine the following translated text for maximum clarity, natural phrasing, and 100% semantic fidelity in "@
        + target
        + ".\n\nStrict Rules:\n- Maintain absolute accuracy to the original meaning.\n- Do NOT alter proper nouns, technical terms, dates, numbers, or core facts.\n- Do NOT summarize or add extra commentary.\n- Return ONLY the final refined translation.\n\nText:\n"@
        + raw
}

fn build_refine_prompt(target: &str, raw: &str) -> (r: String)
    ensures
        r@ == refine_prompt(target@, raw@),
{
    let mut s = owned(
        "You are a professional translator and editor. Refine the following translated text for maximum clarity, natural phrasing, and 100% semantic fidelity in ",
    );
    s.append(target);
    s.append(
        ".\n\nStrict Rules:\n- Maintain absolute accuracy to the original meaning.\n- Do NOT alter proper nouns, technical terms, dates, numbers, or core facts.\n- Do NOT summarize or add extra commentary.\n- Return ONLY the final refined translation.\n\nText:\n",
    );
    s.append(raw);
    s
}

/// Whether a translation is refined by the rewrite model.
pub open spec fn refines(settings: Settings, api_key: Seq<char>) -> bool {
    settings.paraphrase_translation && !is_blank(api_key)
}

/// A translation is refined only when paraphrasing is switched on and the key
/// is not blank: with paraphrasing off, or with a blank key, it never is; with
/// both, it always is.
pub proof fn lemma_refinement_needs_setting_and_key(settings: Settings, api_key: Seq<char>)
    ensures
        !settings.paraphrase_translation ==> !refines(settings, api_key),
        is_blank(api_key) ==> !refines(settings, api_key),
        settings.paraphrase_translation && !is_blank(api_key) ==> refines(settings, api_key),
{
}

/// The end of a translation: a fragment to show, when the shown text is the raw
/// translation, and the outcome.
pub struct TranslateFinish {
    pub fallback_fragment: Option<String>,
    pub result: Result<TranslationResult, TranslateError>,
}

/// A translation whose Google Translate request is under way.
pub struct AwaitingTranslation {
    refine: bool,
    target_lang: String,
}

/// A translation whose refinement is under way.
pub struct AwaitingRefinement {
    target_lang: String,
    raw: String,
    detected: String,
}

/// The first step of a translation.
pub enum TranslateStart {
    /// Nothing to translate.
    Finished(TranslateFinish),
    /// Send this request, then hand its outcome to the pending step.
    Fetch { query: GtxQuery, pending: AwaitingTranslation },
}

/// The step after the translation arrived.
pub enum TranslateNext {
    Finished(TranslateFinish),
    /// Stream a rewrite of this prompt, showing its fragments, then hand the
    /// outcome to the pending step.
    Refine { prompt: String, pending: AwaitingRefinement },
}

impl AwaitingTranslation {
    pub closed spec fn refine(self) -> bool {
        self.refine
    }

    pub closed spec fn target(self) -> Seq<char> {
        self.target_lang@
    }
}

impl AwaitingRefinement {
    pub closed spec fn target(self) -> Seq<char> {
        self.target_lang@
    }

    pub closed spec fn raw(self) -> Seq<char> {
        self.raw@
    }

    pub closed spec fn detected(self) -> Seq<char> {
        self.detected@
    }
}

/// A successful translation result with the given parts.
pub open spec fn is_translation(
    r: TranslationResult,
    translation: Seq<char>,
    raw: Seq<char>,
    detected: Seq<char>,
    target: Seq<char>,
) -> bool {
    &&& r.success
    &&& r.translation@ == translation
    &&& r.raw_translation@ == raw
    &&& r.detected_language@ == detected
    &&& r.target_language@ == target
}

/// The characters of an optional string.
pub open spec fn opt_view(s: Option<String>) -> Option<Seq<char>> {
    match s {
        Some(t) => Some(t@),
        None => None,
    }
}

/// A finished translation that failed with `e` and shows nothing more.
pub open spec fn finished_with_error(f: TranslateFinish, e: TranslateError) -> bool {
    &&& f.fallback_fragment is None
    &&& f.result == Err::<TranslationResult, TranslateError>(e)
}

/// A finished translation that succeeded with the given parts, showing
/// `fragment` (when there is one) as the last piece of text.
pub open spec fn finished_with(
    f: TranslateFinish,
    fragment: Option<Seq<char>>,
    translation: Seq<char>,
    raw: Seq<char>,
    detected: Seq<char>,
    target: Seq<char>,
) -> bool {
    &&& opt_view(f.fallback_fragment) == fragment
    &&& match f.result {
        Ok(res) => is_translation(res, translation, raw, detected, target),
        Err(_) => false,
    }
}

/// Translate `text` into `target_lang` with Google Translate, then, when the
/// settings ask for it and an API key is present, refine the translation with
/// the rewrite model.
pub fn translate_and_paraphrase(
    api_key: &str,
    settings: &Settings,
    text: &str,
    target_lang: &str,
) -> (r: TranslateStart)
    ensures
        match r {
            TranslateStart::Finished(f) => is_blank(text@) && finished_with_error(
                f,
                TranslateError::EmptyText,
            ),
            TranslateStart::Fetch { query, pending } => {
                &&& !is_blank(text@)
                &&& query.url@ == GTX_URL@
                &&& params_view(query.params@) == gtx_params(target_lang@, trim_seq(text@))
                &&& pending.refine() == refines(*settings, api_key@)
                &&& pending.target() == target_lang@
            },
        },
{
    match google_translate_query(text, target_lang) {
        Err(e) => TranslateStart::Finished(TranslateFinish { fallback_fragment: None, result: Err(e) }),
        Ok(query) => {
            let refine = settings.paraphrase_translation && !blank(api_key);
            TranslateStart::Fetch {
                query,
                pending: AwaitingTranslation { refine, target_lang: owned(target_lang) },
            }
        },
    }
}

impl AwaitingTranslation {
    /// The translation request finished with `outcome`.
    pub fn on_translation(self, outcome: Result<(String, String), TranslateError>) -> (r:
        TranslateNext)
        ensures
            match outcome {
                Err(e) => match r {
                    TranslateNext::Finished(f) => finished_with_error(f, e),
                    TranslateNext::Refine { .. } => false,
                },
                Ok((raw, detected)) => match r {
                    TranslateNext::Refine { prompt, pending } => {
                        &&& self.refine()
                        &&& prompt@ == refine_prompt(self.target(), raw@)
                        &&& pending.target() == self.target()
                        &&& pending.raw() == raw@
                        &&& pending.detected() == detected@
                    },
                    TranslateNext::Finished(f) => !self.refine() && finished_with(
                        f,
                        Some(raw@),
                        raw@,
                        raw@,
                        detected@,
                        self.target(),
                    ),
                },
            },
    {
        match outcome {
            Err(e) => TranslateNext::Finished(TranslateFinish { fallback_fragment: None, result: Err(e) }),
            Ok((raw, detected)) => {
                if self.refine {
                    let prompt = build_refine_prompt(self.target_lang.as_str(), raw.as_str());
                    TranslateNext::Refine {
                        prompt,
                        pending: AwaitingRefinement { target_lang: self.target_lang, raw, detected },
                    }
                } else {
                    let shown = raw.clone();
                    let result = TranslationResult {
                        success: true,
                        translation: raw.clone(),
                        raw_translation: raw,
                        detected_language: detected,
                        target_language: self.target_lang,
                    };
                    TranslateNext::Finished(
                        TranslateFinish { fallback_fragment: Some(shown), result: Ok(result) },
                    )
                }
            },
        }
    }
}

impl AwaitingRefinement {
    /// The refinement finished with `outcome`: its text becomes the
    /// translation, and when it failed the raw translation is shown instead.
    pub fn on_refinement(self, outcome: Result<String, DeepSeekError>) -> (r: TranslateFinish)
        ensures
            match outcome {
                Ok(full) => finished_with(
                    r,
                    None,
                    full@,
                    self.raw(),
                    self.detected(),
                    self.target(),
                ),
                Err(_) => finished_with(
                    r,
                    Some(self.raw()),
                    self.raw(),
                    self.raw(),
                    self.detected(),
                    self.target(),
                ),
            },
    {
        match outcome {
            Ok(full) => TranslateFinish {
                fallback_fragment: None,
                result: Ok(
                    TranslationResult {
                        success: true,
                        translation: full,
                        raw_translation: self.raw,
                        detected_language: self.detected,
                        target_language: self.target_lang,
                    },
                ),
            },
            Err(_) => {
                let shown = self.raw.clone();
                TranslateFinish {
                    fallback_fragment: Some(shown),
                    result: Ok(
                        TranslationResult {
                            success: true,
                            translation: self.raw.clone(),
                            raw_translation: self.raw,
                            detected_language: self.detected,
                            target_language: self.target_lang,
                        },
                    ),
                }
            },
        }
    }
}


/// The instruction that asks the rewrite model for a natural reply in the
/// language named `lang_name` to `message`.
pub open spec fn native_reply_prompt(lang_name: Seq<char>, message: Seq<char>) -> Seq<char> {
    "You are an expert native speaker and writing assistant in "@ + lang_name
        + ".\nGenerate or translate a natural, friendly, and contextually fluent reply in "@
        + lang_name
        + " for the following message/draft.\n\nRules:\n- Match the tone, slang, and cultural nuances of conversational "@
        + lang_name
        + ".\n- Keep it authentic, engaging, and natural (e.g. for Indonesian, use natural conversational tone like 'Siap, ayo gas bro!').\n- Do not include explanations, meta commentary, or quotes.\n- Output ONLY the final native reply.\n\nMessage/Draft:\n"@
        + message
}

fn build_native_reply_prompt(lang_name: &str, message: &str) -> (r: String)
    ensures
        r@ == native_reply_prompt(lang_name@, message@),
{
    let mut s = owned("You are an expert native speaker and writing assistant in ");
    s.append(lang_name);
    s.append(".\nGenerate or translate a natural, friendly, and contextually fluent reply in ");
    s.append(lang_name);
    s.append(
        " for the following message/draft.\n\nRules:\n- Match the tone, slang, and cultural nuances of conversational ",
    );
    s.append(lang_name);
    s.append(
        ".\n- Keep it authentic, engaging, and natural (e.g. for Indonesian, use natural conversational tone like 'Siap, ayo gas bro!').\n- Do not include explanations, meta commentary, or quotes.\n- Output ONLY the final native reply.\n\nMessage/Draft:\n",
    );
    s.append(message);
    s
}

/// The end of a native reply: a fragment to show, when the reply came from
/// Google Translate rather than the stream, and the outcome.
pub struct ReplyFinish {
    pub fallback_fragment: Option<String>,
    pub result: Result<NativeReplyResult, TranslateError>,
}

/// A reply whose language detection is under way.
pub struct AwaitingDetection {
    use_model: bool,
    message: String,
    target_override: Option<String>,
}

/// A reply being written by the rewrite model.
pub struct AwaitingReply {
    message: String,
    target_code: String,
    detected: String,
    lang_name: String,
}

/// A reply being produced by Google Translate.
pub struct AwaitingFallback {
    detected: String,
    lang_name: String,
}

impl AwaitingDetection {
    pub closed spec fn use_model(self) -> bool {
        self.use_model
    }

    pub closed spec fn message(self) -> Seq<char> {
        self.message@
    }

    pub closed spec fn target_override(self) -> Option<Seq<char>> {
        opt_view(self.target_override)
    }
}

impl AwaitingReply {
    pub closed spec fn message(self) -> Seq<char> {
        self.message@
    }

    pub closed spec fn target_code(self) -> Seq<char> {
        self.target_code@
    }

    pub closed spec fn detected(self) -> Seq<char> {
        self.detected@
    }

    pub closed spec fn lang_name(self) -> Seq<char> {
        self.lang_name@
    }
}

impl AwaitingFallback {
    pub closed spec fn detected(self) -> Seq<char> {
        self.detected@
    }

    pub closed spec fn lang_name(self) -> Seq<char> {
        self.lang_name@
    }
}

/// The first step of a reply.
pub enum ReplyStart {
    /// Nothing to reply to.
    Finished(ReplyFinish),
    /// Send this request to detect the message's language, then hand its outcome
    /// to the pending step.
    Detect { query: GtxQuery, pending: AwaitingDetection },
}

/// A later step of a reply.
#[allow(inconsistent_fields)]
pub enum ReplyNext {
    Finished(ReplyFinish),
    /// Stream a rewrite of this prompt, showing its fragments, then hand the
    /// outcome to the pending step.
    Write { prompt: String, pending: AwaitingReply },
    /// Send this translation request, then hand its outcome to the pending step.
    Translate { query: GtxQuery, pending: AwaitingFallback },
}

/// A successful reply with the given parts.
pub open spec fn is_reply(
    r: NativeReplyResult,
    reply: Seq<char>,
    detected: Seq<char>,
    lang_name: Seq<char>,
) -> bool {
    &&& r.success
    &&& r.reply@ == reply
    &&& r.detected_language@ == detected
    &&& r.detected_language_name@ == lang_name
}

/// A finished reply that failed with `e` and shows nothing more.
pub open spec fn reply_failed(f: ReplyFinish, e: TranslateError) -> bool {
    &&& f.fallback_fragment is None
    &&& f.result == Err::<NativeReplyResult, TranslateError>(e)
}

/// A finished reply that succeeded with the given parts, showing `fragment`
/// (when there is one) as the last piece of text.
pub open spec fn replied_with(
    f: ReplyFinish,
    fragment: Option<Seq<char>>,
    reply: Seq<char>,
    detected: Seq<char>,
    lang_name: Seq<char>,
) -> bool {
    &&& opt_view(f.fallback_fragment) == fragment
    &&& match f.result {
        Ok(res) => is_reply(res, reply, detected, lang_name),
        Err(_) => false,
    }
}

/// The language detected by a detection outcome: the reported one, or
/// `"unknown"` when detection failed.
pub open spec fn detected_code(outcome: Result<(String, String), TranslateError>) -> Seq<char> {
    match outcome {
        Ok((_, code)) => code@,
        Err(_) => "unknown"@,
    }
}

/// The language a reply is written in: the override when given, the detected
/// one otherwise.
pub open spec fn reply_target(override_code: Option<Seq<char>>, detected: Seq<char>) -> Seq<char> {
    match override_code {
        Some(c) => c,
        None => detected,
    }
}

/// An override language always wins over whatever detection returned; without
/// one the reply goes into the detected language.
pub proof fn lemma_override_wins(override_code: Seq<char>, detected: Seq<char>)
    ensures
        reply_target(Some(override_code), detected) == override_code,
        reply_target(None, detected) == detected,
{
}

/// Detect the language of `text` and write a natural reply in that language
/// (or in `target_lang_override`): by the rewrite model when an API key is
/// present, by Google Translate otherwise or when the model fails.
pub fn generate_native_reply(
    api_key: &str,
    text: &str,
    target_lang_override: Option<&str>,
) -> (r: ReplyStart)
    ensures
        match r {
            ReplyStart::Finished(f) => is_blank(text@) && reply_failed(f, TranslateError::EmptyText),
            ReplyStart::Detect { query, pending } => {
                &&& !is_blank(text@)
                &&& query.url@ == GTX_URL@
                &&& params_view(query.params@) == gtx_params("en"@, trim_seq(text@))
                &&& pending.use_model() == !is_blank(api_key@)
                &&& pending.message() == trim_seq(text@)
                &&& pending.target_override() == match target_lang_override {
                    Some(o) => Some(o@),
                    None => None,
                }
            },
        },
{
    let trimmed = trim(text);
    if trimmed.as_str().is_empty() {
        return ReplyStart::Finished(ReplyFinish { fallback_fragment: None, result: Err(TranslateError::EmptyText) });
    }
    let query = gtx_query("en", trimmed.clone());
    let target_override = match target_lang_override {
        Some(o) => Some(owned(o)),
        None => None,
    };
    ReplyStart::Detect {
        query,
        pending: AwaitingDetection { use_model: !blank(api_key), message: trimmed, target_override },
    }
}

impl AwaitingDetection {
    /// Detection finished with `outcome`.
    pub fn on_detection(self, outcome: Result<(String, String), TranslateError>) -> (r: ReplyNext)
        ensures
            ({
                let detected = detected_code(outcome);
                let target = reply_target(self.target_override(), detected);
                let name = code_name(target);
                match r {
                    ReplyNext::Write { prompt, pending } => {
                        &&& self.use_model()
                        &&& prompt@ == native_reply_prompt(name, self.message())
                        &&& pending.message() == self.message()
                        &&& pending.target_code() == target
                        &&& pending.detected() == detected
                        &&& pending.lang_name() == name
                    },
                    ReplyNext::Translate { query, pending } => {
                        &&& !self.use_model()
                        &&& query.url@ == GTX_URL@
                        &&& params_view(query.params@) == gtx_params(target, self.message())
                        &&& pending.detected() == detected
                        &&& pending.lang_name() == name
                    },
                    ReplyNext::Finished(_) => false,
                }
            }),
    {
        let detected = match outcome {
            Ok((_, code)) => code,
            Err(_) => owned("unknown"),
        };
        let target = match &self.target_override {
            Some(o) => o.clone(),
            None => detected.clone(),
        };
        let lang_name = owned(lang_code_to_name(target.as_str()));
        if self.use_model {
            let prompt = build_native_reply_prompt(lang_name.as_str(), self.message.as_str());
            ReplyNext::Write {
                prompt,
                pending: AwaitingReply { message: self.message, target_code: target, detected, lang_name },
            }
        } else {
            let query = gtx_query(target.as_str(), self.message);
            ReplyNext::Translate { query, pending: AwaitingFallback { detected, lang_name } }
        }
    }
}

impl AwaitingReply {
    /// The rewrite model finished with `outcome`; on failure the reply falls
    /// back to Google Translate.
    pub fn on_reply(self, outcome: Result<String, DeepSeekError>) -> (r: ReplyNext)
        ensures
            match outcome {
                Ok(full) => match r {
                    ReplyNext::Finished(f) => replied_with(
                        f,
                        None,
                        full@,
                        self.detected(),
                        self.lang_name(),
                    ),
                    _ => false,
                },
                Err(_) => match r {
                    ReplyNext::Translate { query, pending } => {
                        &&& query.url@ == GTX_URL@
                        &&& params_view(query.params@) == gtx_params(self.target_code(), self.message())
                        &&& pending.detected() == self.detected()
                        &&& pending.lang_name() == self.lang_name()
                    },
                    _ => false,
                },
            },
    {
        match outcome {
            Ok(full) => ReplyNext::Finished(
                ReplyFinish {
                    fallback_fragment: None,
                    result: Ok(
                        NativeReplyResult {
                            success: true,
                            reply: full,
                            detected_language: self.detected,
                            detected_language_name: self.lang_name,
                        },
                    ),
                },
            ),
            Err(_) => {
                let query = gtx_query(self.target_code.as_str(), self.message);
                ReplyNext::Translate {
                    query,
                    pending: AwaitingFallback { detected: self.detected, lang_name: self.lang_name },
                }
            },
        }
    }
}

impl AwaitingFallback {
    /// The Google Translate request finished with `outcome`; its translation is
    /// the reply, and its failure is the reply's failure.
    pub fn on_translation(self, outcome: Result<(String, String), TranslateError>) -> (r:
        ReplyFinish)
        ensures
            match outcome {
                Ok((t, _)) => replied_with(r, Some(t@), t@, self.detected(), self.lang_name()),
                Err(e) => reply_failed(r, e),
            },
    {
        match outcome {
            Ok((t, _)) => {
                let shown = t.clone();
                ReplyFinish {
                    fallback_fragment: Some(shown),
                    result: Ok(
                        NativeReplyResult {
                            success: true,
                            reply: t,
                            detected_language: self.detected,
                            detected_language_name: self.lang_name,
                        },
                    ),
                }
            },
            Err(e) => ReplyFinish { fallback_fragment: None, result: Err(e) },
        }
    }
}

} // verus!
