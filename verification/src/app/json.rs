use vstd::prelude::*;

use crate::text::str_eq;

verus! {

/// One level of a JSON value: scalars as they are, and the members of arrays and
/// objects as their own JSON text, read again when they are needed.
#[derive(Debug)]
pub enum JsonValue {
    Null,
    Bool(bool),
    /// A number, with its value where it is an integer that fits in `i64`.
    Number(Option<i64>),
    Str(String),
    Array(Vec<String>),
    Object(Vec<(String, String)>),
}

/// What `serde_json` reads from `text`: `None` where `text` is not JSON.
pub uninterp spec fn json_parse(text: Seq<char>) -> Option<JsonValue>;

/// Reads `text` with `serde_json::from_str::<serde_json::Value>` and keeps its top
/// level; each member of an array or object is kept as `serde_json`'s compact text
/// of it. Claims that the result depends on `text` alone.
#[verifier::external_body]
pub(crate) fn parse_json(text: &str) -> (r: Option<JsonValue>)
    ensures
        r == json_parse(text@),
{
    serde_json::from_str::<serde_json::Value>(text).ok().map(|v| match v {
        serde_json::Value::Null => JsonValue::Null,
        serde_json::Value::Bool(b) => JsonValue::Bool(b),
        serde_json::Value::Number(n) => JsonValue::Number(n.as_i64()),
        serde_json::Value::String(s) => JsonValue::Str(s),
        serde_json::Value::Array(a) => JsonValue::Array(a.iter().map(|c| c.to_string()).collect()),
        serde_json::Value::Object(m) => JsonValue::Object(
            m.iter().map(|(k, c)| (k.clone(), c.to_string())).collect(),
        ),
    })
}

/// The text of the first member named `key`.
pub open spec fn member_text(entries: Seq<(String, String)>, key: Seq<char>) -> Option<Seq<char>>
    decreases entries.len(),
{
    if entries.len() == 0 {
        None
    } else if entries[0].0@ == key {
        Some(entries[0].1@)
    } else {
        member_text(entries.drop_first(), key)
    }
}

/// The member `key` of an object; `None` where `v` is no object or has no such member.
pub open spec fn field(v: Option<JsonValue>, key: Seq<char>) -> Option<JsonValue> {
    match v {
        Some(JsonValue::Object(entries)) => match member_text(entries@, key) {
            Some(t) => json_parse(t),
            None => None,
        },
        _ => None,
    }
}

/// The text of a string value.
pub open spec fn str_of(v: Option<JsonValue>) -> Option<Seq<char>> {
    match v {
        Some(JsonValue::Str(s)) => Some(s@),
        _ => None,
    }
}

/// The value of an integer that fits in `i64`.
pub open spec fn int_of(v: Option<JsonValue>) -> Option<i64> {
    match v {
        Some(JsonValue::Number(n)) => n,
        _ => None,
    }
}

/// The value of a boolean.
pub open spec fn bool_of(v: Option<JsonValue>) -> Option<bool> {
    match v {
        Some(JsonValue::Bool(b)) => Some(b),
        _ => None,
    }
}

/// The texts of the elements of an array.
pub open spec fn items_of(v: Option<JsonValue>) -> Option<Seq<Seq<char>>> {
    match v {
        Some(JsonValue::Array(items)) => Some(items@.map_values(|t: String| t@)),
        _ => None,
    }
}

impl JsonValue {
    /// The member `key` of this value, read again from its text.
    pub fn get(&self, key: &str) -> (r: Option<JsonValue>)
        ensures
            r == field(Some(*self), key@),
    {
        match self {
            JsonValue::Object(entries) => {
                let mut i: usize = 0;
                assert(entries@.skip(0) =~= entries@);
                while i < entries.len()
                    invariant
                        *self == JsonValue::Object(*entries),
                        i <= entries.len(),
                        member_text(entries@, key@) == member_text(entries@.skip(i as int), key@),
                    decreases entries.len() - i,
                {
                    let ghost rest = entries@.skip(i as int);
                    if str_eq(entries[i].0.as_str(), key) {
                        assert(rest[0] == entries@[i as int]);
                        assert(member_text(rest, key@) == Some(entries@[i as int].1@));
                        return parse_json(entries[i].1.as_str());
                    }
                    assert(rest.drop_first() =~= entries@.skip(i + 1));
                    i = i + 1;
                }
                None
            },
            _ => None,
        }
    }

    /// The text of this value where it is a string.
    pub fn as_str(&self) -> (r: Option<&String>)
        ensures
            match r {
                Some(s) => str_of(Some(*self)) == Some(s@),
                None => str_of(Some(*self)) is None,
            },
    {
        match self {
            JsonValue::Str(s) => Some(s),
            _ => None,
        }
    }

    /// The value of this value where it is an integer that fits in `i64`.
    pub fn as_i64(&self) -> (r: Option<i64>)
        ensures
            r == int_of(Some(*self)),
    {
        match self {
            JsonValue::Number(n) => *n,
            _ => None,
        }
    }

    /// The value of this value where it is a boolean.
    pub fn as_bool(&self) -> (r: Option<bool>)
        ensures
            r == bool_of(Some(*self)),
    {
        match self {
            JsonValue::Bool(b) => Some(*b),
            _ => None,
        }
    }

    /// The texts of the elements of this value where it is an array.
    pub fn as_array(&self) -> (r: Option<&Vec<String>>)
        ensures
            match r {
                Some(items) => items_of(Some(*self)) == Some(items@.map_values(|t: String| t@)),
                None => items_of(Some(*self)) is None,
            },
    {
        match self {
            JsonValue::Array(items) => Some(items),
            _ => None,
        }
    }
}

} // verus!
