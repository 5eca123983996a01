//! JSON documents as plain values.

use vstd::prelude::*;
use crate::bindings::{json_from_value, json_model, json_value, parse_json_value};
use crate::text::{same, to_chars};

verus! {

/// A JSON value. A number is held as the text that writes it; the members of
/// an object have distinct names.
#[derive(Debug)]
pub enum JsonValue {
    Null,
    Bool(bool),
    Number(String),
    String(String),
    Array(Vec<JsonValue>),
    Object(Vec<(String, JsonValue)>),
}

/// The index of the first member named `key` at or after `from`, or the
/// number of members where there is none.
pub open spec fn member_index(members: Seq<(String, JsonValue)>, key: Seq<char>, from: int) -> int
    decreases members.len() - from,
{
    if from < 0 || from >= members.len() {
        members.len() as int
    } else if members[from].0@ == key {
        from
    } else {
        member_index(members, key, from + 1)
    }
}

/// The member of `value` named `key`, where `value` is an object that has one.
pub open spec fn member(value: JsonValue, key: Seq<char>) -> Option<JsonValue> {
    match value {
        JsonValue::Object(members) => {
            let i = member_index(members@, key, 0);
            if 0 <= i < members@.len() {
                Some(members@[i].1)
            } else {
                None
            }
        },
        _ => None,
    }
}

/// The elements of `value`, where it is an array.
pub open spec fn elements(value: JsonValue) -> Option<Seq<JsonValue>> {
    match value {
        JsonValue::Array(items) => Some(items@),
        _ => None,
    }
}

/// The text of `value`, where it is a string.
pub open spec fn string_of(value: JsonValue) -> Option<Seq<char>> {
    match value {
        JsonValue::String(s) => Some(s@),
        _ => None,
    }
}

impl JsonValue {
    /// The member named `key`, where this is an object that has one.
    pub fn get(&self, key: &str) -> (r: Option<&JsonValue>)
        ensures
            match r {
                Some(found) => member(*self, key@) == Some(*found),
                None => member(*self, key@) is None,
            },
    {
        match self {
            JsonValue::Object(members) => {
                let wanted = to_chars(key);
                let mut i: usize = 0;
                while i < members.len()
                    invariant
                        i <= members.len(),
                        wanted@ == key@,
                        *self == JsonValue::Object(*members),
                        member_index(members@, key@, 0) == member_index(members@, key@, i as int),
                    decreases members.len() - i,
                {
                    let name = to_chars(members[i].0.as_str());
                    if same(&name, &wanted) {
                        return Some(&members[i].1);
                    }
                    i += 1;
                }
                None
            },
            _ => None,
        }
    }

    /// The elements, where this is an array.
    pub fn as_array(&self) -> (r: Option<&Vec<JsonValue>>)
        ensures
            match r {
                Some(items) => elements(*self) == Some(items@),
                None => elements(*self) is None,
            },
    {
        match self {
            JsonValue::Array(items) => Some(items),
            _ => None,
        }
    }

    /// The text, where this is a string.
    pub fn as_str(&self) -> (r: Option<&str>)
        ensures
            match r {
                Some(s) => string_of(*self) == Some(s@),
                None => string_of(*self) is None,
            },
    {
        match self {
            JsonValue::String(s) => Some(s.as_str()),
            _ => None,
        }
    }
}


/// The JSON value that the bytes of a document write, in this library's
/// form, or `None` where they write none.
pub open spec fn json_document(bytes: Seq<u8>) -> Option<JsonValue> {
    match json_value(bytes) {
        Some(value) => Some(json_model(value)),
        None => None,
    }
}

/// The JSON value that the bytes of a document write.
pub fn parse_json(bytes: &[u8]) -> (r: Option<JsonValue>)
    ensures
        r == json_document(bytes@),
{
    match parse_json_value(bytes) {
        Some(value) => Some(json_from_value(&value)),
        None => None,
    }
}

} // verus!
