//! JSON documents as plain values.
//!
//! Parsing is done by `serde_json`; the rest of the library reads the result
//! through `JsonValue`, a tree of plain values that holds what the decoders
//! look at.

use serde_json::Value;
use vstd::prelude::*;

verus! {

/// A parsed document of `serde_json`. Opaque here: it is only handed from the
/// parser to `lift`.
#[verifier::external_type_specification]
#[verifier::external_body]
pub struct ExValue(serde_json::Value);

/// The error of `serde_json`. Opaque here: only its text is read.
#[verifier::external_type_specification]
#[verifier::external_body]
pub struct ExError(serde_json::Error);

/// A JSON value. A number is kept as `Unsigned` where it is a non-negative
/// integer that fits in 64 bits, and as `OtherNumber` (negative or
/// fractional) otherwise.
#[derive(Debug)]
pub enum JsonValue {
    Null,
    Bool(bool),
    Unsigned(u64),
    OtherNumber,
    Text(String),
    Array(Vec<JsonValue>),
    Object(Vec<(String, JsonValue)>),
}

/// The value that `serde_json` reads from `text`, if `text` is one JSON
/// document.
pub uninterp spec fn json_document(text: Seq<char>) -> Option<JsonValue>;

/// What a parsed document of `serde_json` holds.
pub uninterp spec fn json_content(v: Value) -> JsonValue;

/// `serde_json::from_str` at type `Value`: succeeds exactly on the texts that
/// are one JSON document, and then yields a value that holds that document.
#[verifier::external_body]
fn read_document(text: &str) -> (r: Result<Value, serde_json::Error>)
    ensures
        r is Ok <==> json_document(text@) is Some,
        r matches Ok(v) ==> json_document(text@) == Some(json_content(v)),
{
    serde_json::from_str::<Value>(text)
}

/// Copies a `serde_json::Value` into a `JsonValue`, variant by variant. A
/// number goes through `Number::as_u64`, which answers for the non-negative
/// integers that fit in 64 bits.
#[verifier::external_body]
fn lift(v: &Value) -> (r: JsonValue)
    ensures
        r == json_content(*v),
{
    match v {
        Value::Null => JsonValue::Null,
        Value::Bool(b) => JsonValue::Bool(*b),
        Value::Number(n) => match n.as_u64() {
            Some(u) => JsonValue::Unsigned(u),
            None => JsonValue::OtherNumber,
        },
        Value::String(s) => JsonValue::Text(s.clone()),
        Value::Array(a) => JsonValue::Array(a.iter().map(lift).collect()),
        Value::Object(m) =>
            JsonValue::Object(m.iter().map(|(k, x)| (k.clone(), lift(x))).collect()),
    }
}

/// The message of a `serde_json::Error`, as its `Display` gives it.
#[verifier::external_body]
fn error_text(e: &serde_json::Error) -> (r: String) {
    e.to_string()
}

/// First value filed under `key` in a list of entries.
pub open spec fn lookup(entries: Seq<(String, JsonValue)>, key: Seq<char>) -> Option<JsonValue>
    decreases entries.len(),
{
    if entries.len() == 0 {
        None
    } else if entries[0].0@ == key {
        Some(entries[0].1)
    } else {
        lookup(entries.drop_first(), key)
    }
}

impl JsonValue {
    /// The member `key` of an object.
    pub open spec fn field(self, key: Seq<char>) -> Option<JsonValue> {
        match self {
            JsonValue::Object(entries) => lookup(entries@, key),
            _ => None,
        }
    }

    /// The text of a string value.
    pub open spec fn text(self) -> Option<Seq<char>> {
        match self {
            JsonValue::Text(s) => Some(s@),
            _ => None,
        }
    }

    /// The value of a non-negative integer that fits in 64 bits.
    pub open spec fn unsigned(self) -> Option<u64> {
        match self {
            JsonValue::Unsigned(n) => Some(n),
            _ => None,
        }
    }

    /// The elements of an array.
    pub open spec fn items(self) -> Option<Seq<JsonValue>> {
        match self {
            JsonValue::Array(v) => Some(v@),
            _ => None,
        }
    }

    /// The text of the string member `key`; `None` also where the member is
    /// there and is no string.
    pub open spec fn text_at(self, key: Seq<char>) -> Option<Seq<char>> {
        match self.field(key) {
            Some(v) => v.text(),
            None => None,
        }
    }

    /// The value of the unsigned member `key`.
    pub open spec fn unsigned_at(self, key: Seq<char>) -> Option<u64> {
        match self.field(key) {
            Some(v) => v.unsigned(),
            None => None,
        }
    }

    /// The elements of the array member `key`.
    pub open spec fn items_at(self, key: Seq<char>) -> Option<Seq<JsonValue>> {
        match self.field(key) {
            Some(v) => v.items(),
            None => None,
        }
    }

    /// Parses `text`. `None` where it is not one JSON document.
    pub fn parse(text: &str) -> (r: Option<JsonValue>)
        ensures
            r == json_document(text@),
    {
        match read_document(text) {
            Ok(v) => Some(lift(&v)),
            Err(_) => None,
        }
    }

    /// Parses `text`; where it is not one JSON document, the error is the
    /// parser's message.
    pub fn parse_or_message(text: &str) -> (r: Result<JsonValue, String>)
        ensures
            r is Ok <==> json_document(text@) is Some,
            r matches Ok(v) ==> json_document(text@) == Some(v),
    {
        match read_document(text) {
            Ok(v) => Ok(lift(&v)),
            Err(e) => Err(error_text(&e)),
        }
    }

    /// The member `key` of an object.
    pub fn get(&self, key: &str) -> (r: Option<&JsonValue>)
        ensures
            match r {
                Some(v) => self.field(key@) == Some(*v),
                None => self.field(key@) is None,
            },
    {
        match self {
            JsonValue::Object(entries) => {
                let wanted = String::from_str(key);
                let mut i: usize = 0;
                assert(entries@.skip(0) =~= entries@);
                while i < entries.len()
                    invariant
                        i <= entries.len(),
                        wanted@ == key@,
                        self.field(key@) == lookup(entries@, key@),
                        lookup(entries@.skip(i as int), key@) == lookup(entries@, key@),
                    decreases entries.len() - i,
                {
                    assert(entries@.skip(i as int).drop_first() =~= entries@.skip(i + 1));
                    assert(entries@.skip(i as int)[0] == entries@[i as int]);
                    if entries[i].0 == wanted {
                        return Some(&entries[i].1);
                    }
                    i += 1;
                }
                None
            },
            _ => None,
        }
    }

    /// The member `key` of an object, taken out of it.
    pub fn take_field(self, key: &str) -> (r: Option<JsonValue>)
        ensures
            r == self.field(key@),
    {
        match self {
            JsonValue::Object(entries) => {
                let mut entries = entries;
                let wanted = String::from_str(key);
                let mut i: usize = 0;
                assert(entries@.skip(0) =~= entries@);
                while i < entries.len()
                    invariant
                        i <= entries.len(),
                        wanted@ == key@,
                        self.field(key@) == lookup(entries@, key@),
                        lookup(entries@.skip(i as int), key@) == lookup(entries@, key@),
                    decreases entries.len() - i,
                {
                    assert(entries@.skip(i as int).drop_first() =~= entries@.skip(i + 1));
                    assert(entries@.skip(i as int)[0] == entries@[i as int]);
                    if entries[i].0 == wanted {
                        let entry = entries.remove(i);
                        return Some(entry.1);
                    }
                    i += 1;
                }
                None
            },
            _ => None,
        }
    }

    /// The text of a string value.
    pub fn as_str(&self) -> (r: Option<&str>)
        ensures
            match r {
                Some(s) => self.text() == Some(s@),
                None => self.text() is None,
            },
    {
        match self {
            JsonValue::Text(s) => Some(s.as_str()),
            _ => None,
        }
    }

    /// The value of a non-negative integer that fits in 64 bits.
    pub fn as_u64(&self) -> (r: Option<u64>)
        ensures
            r == self.unsigned(),
    {
        match self {
            JsonValue::Unsigned(n) => Some(*n),
            _ => None,
        }
    }

    /// The elements of an array.
    pub fn as_array(&self) -> (r: Option<&Vec<JsonValue>>)
        ensures
            match r {
                Some(v) => self.items() == Some(v@),
                None => self.items() is None,
            },
    {
        match self {
            JsonValue::Array(v) => Some(v),
            _ => None,
        }
    }

    /// The string member `key`, copied.
    pub fn string_at(&self, key: &str) -> (r: Option<String>)
        ensures
            match r {
                Some(s) => self.text_at(key@) == Some(s@),
                None => self.text_at(key@) is None,
            },
    {
        match self.get(key) {
            Some(v) => match v.as_str() {
                Some(s) => Some(String::from_str(s)),
                None => None,
            },
            None => None,
        }
    }

    /// The array member `key`.
    pub fn array_at(&self, key: &str) -> (r: Option<&Vec<JsonValue>>)
        ensures
            match r {
                Some(v) => self.items_at(key@) == Some(v@),
                None => self.items_at(key@) is None,
            },
    {
        match self.get(key) {
            Some(v) => v.as_array(),
            None => None,
        }
    }

    /// The unsigned member `key`.
    pub fn u64_at(&self, key: &str) -> (r: Option<u64>)
        ensures
            r == self.unsigned_at(key@),
    {
        match self.get(key) {
            Some(v) => v.as_u64(),
            None => None,
        }
    }
}

} // verus!
