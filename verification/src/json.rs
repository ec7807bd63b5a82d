//! A JSON document as the services read it: what `serde_json::Value` holds,
//! with each number kept as `serde_json`'s number and, where it is a whole
//! number in the `i64` range, as that integer; and the reading and writing of
//! JSON text.

use vstd::prelude::*;
use crate::text::str_eq;

verus! {

#[verifier::external_type_specification]
#[verifier::external_body]
pub struct ExNumber(serde_json::Number);

#[verifier::external_type_specification]
#[verifier::external_body]
pub struct ExValue(serde_json::Value);

/// A JSON number: `serde_json`'s number (opaque here) and, where its `as_i64`
/// gives one, its value as an `i64`. Numbers are made only from `serde_json`'s
/// own (by `parse_json`, `number_of_i64` and the OCPP encoders), so the integer
/// is always the one that the number written out stands for.
#[derive(Debug)]
pub struct JsonNumber {
    as_i64: Option<i64>,
    raw: serde_json::Number,
}

impl JsonNumber {
    /// The integer of the number, where it has one.
    pub closed spec fn int_value(&self) -> Option<i64> {
        self.as_i64
    }

    /// The integer of the number, where it has one.
    pub fn as_i64(&self) -> (res: Option<i64>)
        ensures
            res == self.int_value(),
    {
        self.as_i64
    }
}

/// A JSON document. Object members are kept in order; a lookup finds the
/// first member with the key (an object parsed from text has each key once).
#[derive(Debug)]
pub enum Json {
    Null,
    Bool(bool),
    Number(JsonNumber),
    String(String),
    Array(Vec<Json>),
    Object(Vec<(String, Json)>),
}

/// The value of the first member named `key`.
pub open spec fn members_lookup(members: Seq<(String, Json)>, key: Seq<char>) -> Option<Json>
    decreases members.len(),
{
    if members.len() == 0 {
        None
    } else if members[0].0@ == key {
        Some(members[0].1)
    } else {
        members_lookup(members.drop_first(), key)
    }
}

/// The member `key` of an object; `None` for a missing key or a value that
/// is not an object.
pub open spec fn json_lookup(v: Json, key: Seq<char>) -> Option<Json> {
    match v {
        Json::Object(members) => members_lookup(members@, key),
        _ => None,
    }
}

/// `value[key]` as `serde_json` indexes: the member, or `null`.
pub open spec fn json_field(v: Json, key: Seq<char>) -> Json {
    match json_lookup(v, key) {
        Some(x) => x,
        None => Json::Null,
    }
}

/// `as_str`: the text of a string value.
pub open spec fn json_as_str(v: Json) -> Option<Seq<char>> {
    match v {
        Json::String(s) => Some(s@),
        _ => None,
    }
}

/// `as_i64`: the integer of a number that has one.
pub open spec fn json_as_i64(v: Json) -> Option<i64> {
    match v {
        Json::Number(n) => n.int_value(),
        _ => None,
    }
}

/// `as_array`: the items of an array value.
pub open spec fn json_as_array(v: Json) -> Option<Seq<Json>> {
    match v {
        Json::Array(items) => Some(items@),
        _ => None,
    }
}

impl Json {
    /// The member `key` of an object, if the value is an object that has it.
    pub fn get(&self, key: &str) -> (res: Option<&Json>)
        ensures
            match res {
                Some(x) => json_lookup(*self, key@) == Some(*x),
                None => json_lookup(*self, key@) is None,
            },
    {
        match self {
            Json::Object(members) => {
                let mut i: usize = 0;
                assert(members@.skip(0) =~= members@);
                while i < members.len()
                    invariant
                        i <= members.len(),
                        json_lookup(*self, key@) == members_lookup(members@, key@),
                        members_lookup(members@, key@) == members_lookup(
                            members@.skip(i as int),
                            key@,
                        ),
                    decreases members.len() - i,
                {
                    assert(members@.skip(i as int)[0] == members@[i as int]);
                    assert(members@.skip(i as int).drop_first() =~= members@.skip(i + 1));
                    if str_eq(members[i].0.as_str(), key) {
                        assert(members_lookup(members@.skip(i as int), key@) == Some(members@[i as int].1));
                        return Some(&members[i].1);
                    }
                    i += 1;
                }
                assert(members@.skip(i as int).len() == 0);
                None
            },
            _ => None,
        }
    }

    /// The text of a string value.
    pub fn as_str(&self) -> (res: Option<&str>)
        ensures
            match res {
                Some(s) => json_as_str(*self) == Some(s@),
                None => json_as_str(*self) is None,
            },
    {
        match self {
            Json::String(s) => Some(s.as_str()),
            _ => None,
        }
    }

    /// The integer of a number that has one.
    pub fn as_i64(&self) -> (res: Option<i64>)
        ensures
            res == json_as_i64(*self),
    {
        match self {
            Json::Number(n) => n.as_i64(),
            _ => None,
        }
    }

    /// The items of an array value.
    pub fn as_array(&self) -> (res: Option<&Vec<Json>>)
        ensures
            match res {
                Some(items) => json_as_array(*self) == Some(items@),
                None => json_as_array(*self) is None,
            },
    {
        match self {
            Json::Array(items) => Some(items),
            _ => None,
        }
    }
}

/// The document that `serde_json::from_str` reads from a text, if the text is
/// JSON.
pub uninterp spec fn json_of_text(text: Seq<char>) -> Option<Json>;

/// The text that `serde_json::Value`'s `to_string` writes for a document.
pub uninterp spec fn text_of_json(json: Json) -> Seq<char>;

/// Carries a `serde_json::Value` over into a `Json`, one variant for one: the
/// conversion that `parse_json` and the OCPP encoders use on `serde_json`'s
/// values. Nothing is stated of it on its own.
#[verifier::external_body]
pub(crate) fn json_of_value(value: serde_json::Value) -> Json {
    match value {
        serde_json::Value::Null => Json::Null,
        serde_json::Value::Bool(b) => Json::Bool(b),
        serde_json::Value::Number(n) => Json::Number(JsonNumber { as_i64: n.as_i64(), raw: n }),
        serde_json::Value::String(s) => Json::String(s),
        serde_json::Value::Array(items) => Json::Array(items.into_iter().map(json_of_value).collect()),
        serde_json::Value::Object(map) => Json::Object(map.into_iter().map(|(k, v)| (k, json_of_value(v))).collect()),
    }
}

/// Carries a `Json` back into a `serde_json::Value`, one variant for one: the
/// conversion that `json_to_text` and the OCPP decoders use. An object with a
/// repeated key keeps the last such member, as `serde_json`'s map does (a
/// lookup with `get` finds the first). Nothing is stated of it on its own.
#[verifier::external_body]
pub(crate) fn value_of_json(json: Json) -> serde_json::Value {
    match json {
        Json::Null => serde_json::Value::Null,
        Json::Bool(b) => serde_json::Value::Bool(b),
        Json::Number(n) => serde_json::Value::Number(n.raw),
        Json::String(s) => serde_json::Value::String(s),
        Json::Array(items) => serde_json::Value::Array(items.into_iter().map(value_of_json).collect()),
        Json::Object(members) => serde_json::Value::Object(members.into_iter().map(|(k, v)| (k, value_of_json(v))).collect()),
    }
}

/// `serde_json::from_str::<serde_json::Value>`: the document a text holds, or
/// `None` where the text is not JSON. Which texts are JSON and what they hold
/// is `serde_json`'s grammar, named `json_of_text`.
#[verifier::external_body]
pub fn parse_json(text: &str) -> (res: Option<Json>)
    ensures
        res == json_of_text(text@),
{
    serde_json::from_str::<serde_json::Value>(text).ok().map(json_of_value)
}

/// `serde_json::Value`'s `to_string`: the compact JSON text of a document,
/// named `text_of_json`.
#[verifier::external_body]
pub fn json_to_text(json: Json) -> (res: String)
    ensures
        res@ == text_of_json(json),
{
    value_of_json(json).to_string()
}

/// `serde_json::Number::from(i64)`: the number `i`, whose `as_i64` is `i`.
#[verifier::external_body]
pub fn number_of_i64(i: i64) -> (res: JsonNumber)
    ensures
        res.int_value() == Some(i),
{
    let raw = serde_json::Number::from(i);
    JsonNumber { as_i64: raw.as_i64(), raw }
}

} // verus!
