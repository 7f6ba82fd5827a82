//! JSON values as the library holds them, and the trusted doorway to the
//! `serde_json` parser and printer.

use vstd::prelude::*;
use vstd::string::*;
use crate::text::same_text;

verus! {

/// A JSON value. Object members keep the order in which the parser hands
/// them out; a number that is not a non-negative integer within `u64` is kept
/// by its decimal text.
#[derive(Debug, PartialEq, Eq)]
pub enum Json {
    Null,
    Bool(bool),
    Unsigned(u64),
    Number(String),
    Text(String),
    Array(Vec<Json>),
    Object(Vec<(String, Json)>),
}

/// The first member of `fields` named `key`, if there is one.
pub open spec fn lookup(fields: Seq<(String, Json)>, key: Seq<char>) -> Option<Json>
    decreases fields.len(),
{
    if fields.len() == 0 {
        None
    } else if fields[0].0@ == key {
        Some(fields[0].1)
    } else {
        lookup(fields.subrange(1, fields.len() as int), key)
    }
}

impl Json {
    /// The member `key` of an object; `None` for a missing member and for
    /// every value that is not an object.
    pub open spec fn member(self, key: Seq<char>) -> Option<Json> {
        match self {
            Json::Object(fields) => lookup(fields@, key),
            _ => None,
        }
    }

    /// The number held, where the value is a non-negative integer within `u64`.
    pub open spec fn unsigned(self) -> Option<u64> {
        match self {
            Json::Unsigned(n) => Some(n),
            _ => None,
        }
    }

    /// Looks up a member of an object by name.
    pub fn get(&self, key: &str) -> (r: Option<&Json>)
        ensures
            match r {
                Some(j) => self.member(key@) == Some(*j),
                None => self.member(key@) is None,
            },
    {
        match self {
            Json::Object(fields) => {
                let n: usize = fields.len();
                let mut i: usize = 0;
                assert(fields@.subrange(0, n as int) =~= fields@);
                while i < n
                    invariant
                        i <= n,
                        n == fields@.len(),
                        self.member(key@) == lookup(fields@, key@),
                        lookup(fields@, key@) == lookup(fields@.subrange(i as int, n as int), key@),
                    decreases n - i,
                {
                    let entry = &fields[i];
                    let ghost rest = fields@.subrange(i as int, n as int);
                    assert(rest[0] == fields@[i as int]);
                    if same_text(entry.0.as_str(), key) {
                        assert(lookup(rest, key@) == Some(entry.1));
                        return Some(&entry.1);
                    }
                    assert(fields@.subrange(i as int, n as int).subrange(1, n - i)
                        =~= fields@.subrange(i + 1, n as int));
                    i = i + 1;
                }
                None
            },
            _ => None,
        }
    }

    /// Reads the value as an unsigned integer.
    pub fn as_u64(&self) -> (r: Option<u64>)
        ensures
            r == self.unsigned(),
    {
        match self {
            Json::Unsigned(n) => Some(*n),
            _ => None,
        }
    }
}

/// What `serde_json::from_str` makes of a text, written as a [`Json`]:
/// `None` where the text is not one well-formed JSON document.
pub uninterp spec fn parsed_json(text: Seq<char>) -> Option<Json>;

/// What a `serde_json::Value` holds, written as a [`Json`].
pub uninterp spec fn value_json(v: serde_json::Value) -> Json;

/// How `serde_json` prints a string as a JSON string literal: in double
/// quotes, with its escapes.
pub uninterp spec fn quoted(s: Seq<char>) -> Seq<char>;

/// The parser's own value type, carried from the parser to the conversion.
#[verifier::external_type_specification]
#[verifier::external_body]
pub struct ExValue(serde_json::Value);

/// Calls `serde_json::from_str` for a `serde_json::Value`. Trusted: the
/// outcome depends on the text alone, a parse error gives `None`.
#[verifier::external_body]
fn parse_value(text: &str) -> (r: Option<serde_json::Value>)
    ensures
        match r {
            Some(v) => parsed_json(text@) == Some(value_json(v)),
            None => parsed_json(text@) is None,
        },
{
    serde_json::from_str::<serde_json::Value>(text).ok()
}

/// Rewrites a `serde_json::Value` variant by variant. Trusted: nothing is
/// added or dropped; a number goes through `Number::as_u64`, and where that
/// has no answer, through the number's `Display`.
#[verifier::external_body]
fn json_of_value(v: serde_json::Value) -> (j: Json)
    ensures
        j == value_json(v),
{
    match v {
        serde_json::Value::Null => Json::Null,
        serde_json::Value::Bool(b) => Json::Bool(b),
        serde_json::Value::Number(n) => match n.as_u64() {
            Some(u) => Json::Unsigned(u),
            None => Json::Number(n.to_string()),
        },
        serde_json::Value::String(s) => Json::Text(s),
        serde_json::Value::Array(a) => Json::Array(a.into_iter().map(json_of_value).collect()),
        serde_json::Value::Object(m) => Json::Object(m.into_iter().map(|(k, e)| (k, json_of_value(e))).collect()),
    }
}

/// Prints `s` as a JSON string literal through the `Display` of
/// `serde_json::Value`. Trusted: the outcome depends on `s` alone.
#[verifier::external_body]
pub(crate) fn quote(s: &str) -> (r: String)
    ensures
        r@ == quoted(s@),
{
    serde_json::Value::String(s.to_owned()).to_string()
}

/// Parses one JSON document.
pub fn parse(text: &str) -> (r: Option<Json>)
    ensures
        r == parsed_json(text@),
{
    match parse_value(text) {
        Some(v) => Some(json_of_value(v)),
        None => None,
    }
}

} // verus!
