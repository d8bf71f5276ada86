//! JSON extraction: the parsed document is modelled as a tree of plain
//! values, and its string leaf values are concatenated, separated by
//! single spaces; non-string scalars contribute nothing, object keys
//! are ignored and traversal order is preserved. Text that fails to
//! parse falls back to the raw text.

use vstd::prelude::*;

use crate::decode::decoded_of;
use crate::decode::parse_text_file;
use crate::text::push_all;
use crate::text::string_to_chars;
use crate::text::chars_to_string;

verus! {

/// A JSON document as the extractor sees it: scalars other than
/// strings carry no text; arrays and objects keep their element order.
pub enum JsonValue {
    Null,
    Bool(bool),
    Number,
    Str(String),
    Array(Vec<JsonValue>),
    Object(Vec<(String, JsonValue)>),
}

/// The extracted text of a value: its string leaves, joined with
/// single spaces; non-string scalars contribute nothing, so no extra
/// separators appear around them.
pub open spec fn json_text_spec(v: JsonValue) -> Seq<char>
    decreases v, 0int, 0int,
{
    match v {
        JsonValue::Null => Seq::empty(),
        JsonValue::Bool(_) => Seq::empty(),
        JsonValue::Number => Seq::empty(),
        JsonValue::Str(s) => s@,
        JsonValue::Array(vs) => array_texts(vs@, 0),
        JsonValue::Object(fs) => object_texts(fs@, 0),
    }
}

/// The non-empty texts of the array elements from `i` on, joined with
/// single spaces.
pub open spec fn array_texts(vs: Seq<JsonValue>, i: int) -> Seq<char>
    decreases vs, 1int, vs.len() - i,
        when 0 <= i <= vs.len()
{
    if i >= vs.len() {
        Seq::empty()
    } else {
        let t = json_text_spec(vs[i]);
        let rest = array_texts(vs, i + 1);
        if t.len() == 0 {
            rest
        } else if rest.len() == 0 {
            t
        } else {
            t + seq![' '] + rest
        }
    }
}

/// The non-empty texts of the object member values from `i` on,
/// joined with single spaces; the keys contribute nothing.
pub open spec fn object_texts(fs: Seq<(String, JsonValue)>, i: int) -> Seq<char>
    decreases fs, 1int, fs.len() - i,
        when 0 <= i <= fs.len()
{
    if i >= fs.len() {
        Seq::empty()
    } else {
        let t = json_text_spec(fs[i].1);
        let rest = object_texts(fs, i + 1);
        if t.len() == 0 {
            rest
        } else if rest.len() == 0 {
            t
        } else {
            t + seq![' '] + rest
        }
    }
}

fn array_texts_exec(vs: &Vec<JsonValue>, i: usize) -> (r: Vec<char>)
    requires
        i <= vs.len(),
    ensures
        r@ == array_texts(vs@, i as int),
    decreases vs@, 1int, vs@.len() - i,
{
    if i >= vs.len() {
        Vec::new()
    } else {
        let first = extract_text_from_json(&vs[i]);
        let mut out = string_to_chars(first.as_str());
        let tail = array_texts_exec(vs, i + 1);
        if out.len() == 0 {
            tail
        } else if tail.len() == 0 {
            out
        } else {
            out.push(' ');
            push_all(&mut out, &tail);
            proof {
                assert(out@ =~= json_text_spec(vs@[i as int]) + seq![' '] + array_texts(
                    vs@,
                    i + 1 as int,
                ));
            }
            out
        }
    }
}

fn object_texts_exec(fs: &Vec<(String, JsonValue)>, i: usize) -> (r: Vec<char>)
    requires
        i <= fs.len(),
    ensures
        r@ == object_texts(fs@, i as int),
    decreases fs@, 1int, fs@.len() - i,
{
    if i >= fs.len() {
        Vec::new()
    } else {
        let first = extract_text_from_json(&fs[i].1);
        let mut out = string_to_chars(first.as_str());
        let tail = object_texts_exec(fs, i + 1);
        if out.len() == 0 {
            tail
        } else if tail.len() == 0 {
            out
        } else {
            out.push(' ');
            push_all(&mut out, &tail);
            proof {
                assert(out@ =~= json_text_spec(fs@[i as int].1) + seq![' '] + object_texts(
                    fs@,
                    i + 1 as int,
                ));
            }
            out
        }
    }
}

/// Recursively concatenates the string leaves of a JSON value,
/// separated by single spaces; non-string scalars contribute nothing.
pub fn extract_text_from_json(v: &JsonValue) -> (r: String)
    ensures
        r@ == json_text_spec(*v),
    decreases *v, 0int, 0int,
{
    match v {
        JsonValue::Null => String::new(),
        JsonValue::Bool(_) => String::new(),
        JsonValue::Number => String::new(),
        JsonValue::Str(s) => {
            let r = s.clone();
            r
        },
        JsonValue::Array(vs) => {
            let t = array_texts_exec(vs, 0);
            chars_to_string(&t)
        },
        JsonValue::Object(fs) => {
            let t = object_texts_exec(fs, 0);
            chars_to_string(&t)
        },
    }
}

#[verifier::external_type_specification]
#[verifier::external_body]
pub struct ExSerdeValue(serde_json::Value);

/// The tree serde_json parses from this text, restated over plain
/// values, or `None` when parsing fails; a pure function of the text.
pub uninterp spec fn json_tree_of(s: Seq<char>) -> Option<JsonValue>;

/// Restates a parsed serde_json tree in the crate's own tree type, one
/// variant per variant, element order preserved. The trusted
/// conversion half of `parse_json`.
#[verifier::external_body]
fn json_from_serde(v: &serde_json::Value) -> JsonValue {
    match v {
        serde_json::Value::Null => JsonValue::Null,
        serde_json::Value::Bool(b) => JsonValue::Bool(*b),
        serde_json::Value::Number(_) => JsonValue::Number,
        serde_json::Value::String(s) => JsonValue::Str(s.clone()),
        serde_json::Value::Array(a) => JsonValue::Array(a.iter().map(json_from_serde).collect()),
        serde_json::Value::Object(o) => JsonValue::Object(
            o.iter().map(|(k, x)| (k.clone(), json_from_serde(x))).collect(),
        ),
    }
}

/// Relies on `serde_json::from_str::<Value>`: parsing is a pure
/// function of the input text and fails exactly on malformed JSON;
/// the parsed tree is restated by `json_from_serde`.
#[verifier::external_body]
fn parse_json(content: &str) -> (r: Option<JsonValue>)
    ensures
        r == json_tree_of(content@),
{
    serde_json::from_str::<serde_json::Value>(content).ok().map(|v| json_from_serde(&v))
}

/// The JSON projection of a text: the extracted leaf text of the
/// parsed tree, or the text itself when it does not parse.
pub open spec fn json_spec(t: Seq<char>) -> Seq<char> {
    match json_tree_of(t) {
        Some(v) => json_text_spec(v),
        None => t,
    }
}

/// Extracts a JSON file: all string leaf values of the parsed
/// document, concatenated with single spaces, object keys ignored and
/// non-string scalars contributing nothing; malformed JSON falls back
/// to the raw decoded text.
pub fn parse_json_file(bytes: &Vec<u8>) -> (r: String)
    ensures
        r@ == json_spec(decoded_of(bytes@)),
{
    let content = parse_text_file(bytes);
    match parse_json(content.as_str()) {
        Some(v) => {
            let r = extract_text_from_json(&v);
            r
        },
        None => {
            content
        },
    }
}

} // verus!
