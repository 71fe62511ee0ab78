//! A plain JSON document model, the decoding of response bodies into it, and
//! the few lookups the response handling needs.

use serde_json::Value;
use vstd::prelude::*;

verus! {

/// A decoded JSON value. Numbers keep their textual form; object members keep
/// their order.
pub enum JsonValue {
    Null,
    Bool(bool),
    Number(String),
    Str(String),
    Array(Vec<JsonValue>),
    Object(Vec<(String, JsonValue)>),
}

#[verifier::external_type_specification]
#[verifier::external_body]
pub struct ExSerdeJsonValue(serde_json::Value);

/// The document that `serde_json` decodes from `text`, or nothing when `text`
/// is not one JSON document. JSON's grammar is not spelled out here.
pub uninterp spec fn json_of(text: Seq<char>) -> Option<JsonValue>;

/// Decodes `text` with `serde_json::from_str::<serde_json::Value>`. Trusted to
/// give, for the same text, the same result: [`json_of`] of it. Which texts
/// decode, and to what, is `serde_json`'s grammar and is not stated here.
#[verifier::external_body]
pub(crate) fn parse_json(text: &str) -> (r: Option<JsonValue>)
    ensures
        r == json_of(text@),
{
    serde_json::from_str::<Value>(text).ok().map(json_value_of)
}

/// A decoded `serde_json::Value` as a [`JsonValue`], variant for variant;
/// numbers keep `serde_json`'s textual form. Nothing is claimed of it beyond
/// what [`parse_json`] states.
#[verifier::external_body]
fn json_value_of(v: Value) -> JsonValue {
    match v {
        Value::Null => JsonValue::Null,
        Value::Bool(b) => JsonValue::Bool(b),
        Value::Number(n) => JsonValue::Number(n.to_string()),
        Value::String(t) => JsonValue::Str(t),
        Value::Array(items) => JsonValue::Array(
            items.into_iter().map(json_value_of).collect(),
        ),
        Value::Object(m) => JsonValue::Object(
            m.into_iter().map(|(k, x)| (k, json_value_of(x))).collect(),
        ),
    }
}

/// The JSON text that `serde_json` writes for the string `text`: `text` in
/// double quotes, with the characters JSON requires escaped. The escapes are
/// `serde_json`'s and are not spelled out here.
pub uninterp spec fn json_string_of(text: Seq<char>) -> Seq<char>;

/// Whether `text` holds no character that JSON escapes: no double quote, no
/// backslash and no control character below U+0020.
pub open spec fn needs_no_escape(text: Seq<char>) -> bool {
    forall|i: int| 0 <= i < text.len() ==> #[trigger] text[i] != '"' && text[i] != '\\' && text[i] >= ' '
}

/// Encodes `text` as a JSON string with `serde_json::to_string`. Trusted to
/// give [`json_string_of`] of it, and, for text with nothing to escape, the
/// text between double quotes, as `serde_json`'s escape table shows. Writing a
/// `str` into memory does not fail, so the error arm is never taken.
#[verifier::external_body]
pub(crate) fn json_string(text: &str) -> (r: String)
    ensures
        r@ == json_string_of(text@),
        needs_no_escape(text@) ==> r@ == seq!['"'] + text@ + seq!['"'],
{
    match serde_json::to_string(text) {
        Ok(encoded) => encoded,
        Err(_) => String::new(),
    }
}

/// The value of the first member of `entries` named `key`.
pub open spec fn lookup(entries: Seq<(String, JsonValue)>, key: Seq<char>) -> Option<JsonValue>
    decreases entries.len(),
{
    if entries.len() == 0 {
        None
    } else if entries[0].0@ == key {
        Some(entries[0].1)
    } else {
        lookup(entries.drop_first(), key)
    }
}

impl JsonValue {
    /// Element `i` of an array; nothing for other values or out of range.
    pub open spec fn item(self, i: int) -> Option<JsonValue> {
        match self {
            JsonValue::Array(v) => if 0 <= i < v@.len() {
                Some(v@[i])
            } else {
                None
            },
            _ => None,
        }
    }

    /// Member `key` of an object; nothing for other values or a missing key.
    pub open spec fn member(self, key: Seq<char>) -> Option<JsonValue> {
        match self {
            JsonValue::Object(m) => lookup(m@, key),
            _ => None,
        }
    }

    /// The characters of a JSON string; nothing for other values.
    pub open spec fn text(self) -> Option<Seq<char>> {
        match self {
            JsonValue::Str(s) => Some(s@),
            _ => None,
        }
    }

    /// Element `i` of an array (`Value::get(i)`).
    pub fn get_index(&self, i: usize) -> (r: Option<&JsonValue>)
        ensures
            match r {
                Some(x) => self.item(i as int) == Some(*x),
                None => self.item(i as int) is None,
            },
    {
        match self {
            JsonValue::Array(v) => {
                if i < v.len() {
                    Some(&v[i])
                } else {
                    None
                }
            },
            _ => None,
        }
    }

    /// Member `key` of an object (`Value::get(key)`).
    pub fn get_member(&self, key: &str) -> (r: Option<&JsonValue>)
        ensures
            match r {
                Some(x) => self.member(key@) == Some(*x),
                None => self.member(key@) is None,
            },
    {
        match self {
            JsonValue::Object(m) => {
                let wanted = crate::text::owned(key);
                let mut i: usize = 0;
                assert(m@.subrange(0, m@.len() as int) =~= m@);
                while i < m.len()
                    invariant
                        i <= m@.len(),
                        wanted@ == key@,
                        self.member(key@) == lookup(m@, key@),
                        lookup(m@, key@) == lookup(m@.subrange(i as int, m@.len() as int), key@),
                    decreases m.len() - i,
                {
                    assert(m@.subrange(i as int, m@.len() as int).drop_first() =~= m@.subrange(
                        i + 1,
                        m@.len() as int,
                    ));
                    if m[i].0 == wanted {
                        assert(m@.subrange(i as int, m@.len() as int)[0] == m@[i as int]);
                        assert(m@[i as int].0@ == key@);
                        assert(lookup(m@, key@) == Some(m@[i as int].1));
                        return Some(&m[i].1);
                    }
                    i = i + 1;
                }
                None
            },
            _ => None,
        }
    }

    /// The string held by a JSON string (`Value::as_str`).
    pub fn as_text(&self) -> (r: Option<&String>)
        ensures
            match r {
                Some(s) => self.text() == Some(s@),
                None => self.text() is None,
            },
    {
        match self {
            JsonValue::Str(s) => Some(s),
            _ => None,
        }
    }
}

} // verus!
