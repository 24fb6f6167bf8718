//! In-memory model of a parsed JSON document.
//!
//! Webhook payloads are loosely structured: the extractor walks nested
//! objects defensively, so the model only has to hold, as plain values,
//! what that walk reads — object entries and string leaves. Numbers are
//! kept as a bare marker because no screening rule reads their value.

use vstd::prelude::*;
use vstd::string::StringExecFns;

verus! {

/// A JSON document held as plain values. Object entries keep the order
/// in which they were produced; `member` returns the first binding of a
/// key, so documents with duplicate keys still have a well-defined
/// lookup.
#[derive(Debug, PartialEq, Eq)]
pub enum JsonValue {
    Null,
    Bool(bool),
    Number,
    Str(String),
    Array(Vec<JsonValue>),
    Object(Vec<(String, JsonValue)>),
}

/// First value bound to `key` among `entries`, if any.
pub open spec fn spec_lookup(entries: Seq<(String, JsonValue)>, key: Seq<char>) -> Option<JsonValue>
    decreases entries.len(),
{
    if entries.len() == 0 {
        None
    } else if entries[0].0@ == key {
        Some(entries[0].1)
    } else {
        spec_lookup(entries.skip(1), key)
    }
}

/// Field lookup on a document: the first value bound to `key` when the
/// document is an object that has such a binding, `None` otherwise —
/// in particular on every non-object document.
pub open spec fn spec_member(v: JsonValue, key: Seq<char>) -> Option<JsonValue> {
    match v {
        JsonValue::Object(entries) => spec_lookup(entries@, key),
        _ => None,
    }
}

/// The characters of a string leaf, `None` on every other document.
pub open spec fn spec_as_str(v: JsonValue) -> Option<Seq<char>> {
    match v {
        JsonValue::Str(s) => Some(s@),
        _ => None,
    }
}

impl JsonValue {
    /// Field lookup, exactly `spec_member`: absence of the field, or a
    /// non-object receiver, is a normal `None` outcome, never an error.
    pub fn member<'a>(&'a self, key: &str) -> (r: Option<&'a JsonValue>)
        ensures
            match r {
                Some(m) => spec_member(*self, key@) == Some(*m),
                None => spec_member(*self, key@) is None,
            },
    {
        match self {
            JsonValue::Object(entries) => lookup(entries, key),
            _ => None,
        }
    }

    /// The string contents of a string leaf, exactly `spec_as_str`.
    pub fn as_str<'a>(&'a self) -> (r: Option<&'a String>)
        ensures
            match r {
                Some(s) => spec_as_str(*self) == Some(s@),
                None => spec_as_str(*self) is None,
            },
    {
        match self {
            JsonValue::Str(s) => Some(s),
            _ => None,
        }
    }
}

#[verifier::external_type_specification]
#[verifier::external_body]
pub struct ExSerdeValue(serde_json::Value);

/// The document the JSON parser yields on `bytes`: `None` exactly on
/// byte strings that are not valid JSON. The parser is a pure function
/// of the bytes — object entries come out sorted by key, and on a
/// repeated key the later binding wins — so its result has a name
/// rather than a restatement of the JSON grammar.
pub uninterp spec fn parsed_json(bytes: Seq<u8>) -> Option<JsonValue>;

/// Relies on serde_json::from_slice: parses the bytes as one JSON
/// document, deterministically, and fails exactly on input that is not
/// valid JSON.
#[verifier::external_body]
pub fn parse_json(bytes: &[u8]) -> (r: Option<JsonValue>)
    ensures
        r == parsed_json(bytes@),
{
    match serde_json::from_slice::<serde_json::Value>(bytes) {
        Ok(v) => Some(decode(v)),
        Err(_) => None,
    }
}

/// Relies on serde_json::Value having exactly these six variants: each
/// arm carries one variant over into the model, moving its fields;
/// numbers become the bare marker because no screening rule reads them.
#[verifier::external_body]
fn decode(v: serde_json::Value) -> JsonValue {
    match v {
        serde_json::Value::Null => JsonValue::Null,
        serde_json::Value::Bool(b) => JsonValue::Bool(b),
        serde_json::Value::Number(_) => JsonValue::Number,
        serde_json::Value::String(s) => JsonValue::Str(s),
        serde_json::Value::Array(a) => JsonValue::Array(a.into_iter().map(decode).collect()),
        serde_json::Value::Object(m) => JsonValue::Object(
            m.into_iter().map(|e| (e.0, decode(e.1))).collect(),
        ),
    }
}

fn lookup<'a>(entries: &'a Vec<(String, JsonValue)>, key: &str) -> (r: Option<&'a JsonValue>)
    ensures
        match r {
            Some(m) => spec_lookup(entries@, key@) == Some(*m),
            None => spec_lookup(entries@, key@) is None,
        },
{
    let k: String = String::from_str(key);
    let n = entries.len();
    let mut i: usize = 0;
    proof {
        assert(entries@.skip(0) =~= entries@);
    }
    while i < n
        invariant
            n == entries@.len(),
            i <= n,
            k@ == key@,
            spec_lookup(entries@, key@) == spec_lookup(entries@.skip(i as int), key@),
        decreases n - i,
    {
        if entries[i].0 == k {
            proof {
                assert(entries@.skip(i as int)[0] == entries@[i as int]);
            }
            return Some(&entries[i].1);
        }
        proof {
            assert(entries@.skip(i as int)[0] == entries@[i as int]);
            assert(entries@.skip(i as int).skip(1) =~= entries@.skip(i as int + 1));
        }
        i = i + 1;
    }
    None
}

} // verus!
