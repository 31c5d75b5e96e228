//! The boundary to `serde_json`: the decoded value of a feed line, its
//! mathematical model, and the few operations of `serde_json::Value` that the
//! classifier reads it through.
//!
//! Everything marked as trusted in this module is stated from the source of
//! `serde_json` and is believed, not proved.

use vstd::prelude::*;

verus! {

/// `serde_json::Value`, the tree that one feed line decodes to. Verified code
/// carries such a value around and reads it only through the functions below.
#[verifier::external_type_specification]
#[verifier::external_body]
pub struct ExValue(serde_json::Value);

/// `serde_json::Error`, what `serde_json` says of a text that it rejects.
/// Nothing here reads it.
#[verifier::external_type_specification]
#[verifier::external_body]
pub struct ExError(serde_json::Error);

/// A JSON number. `serde_json` keeps an integer between `i64::MIN` and
/// `u64::MAX` exactly; every other number is kept as a finite `f64`, of which
/// the model holds the IEEE 754 bit pattern.
pub enum JsonNumber {
    Int(int),
    Float(u64),
}

/// The mathematical model of a decoded value.
pub enum Json {
    Null,
    Bool(bool),
    Number(JsonNumber),
    String(Seq<char>),
    Array(Seq<Json>),
    Object(Map<Seq<char>, Json>),
}

impl Json {
    /// The member of an object under `key`; `None` where `self` is no object
    /// or has no such member.
    pub open spec fn member(self, key: Seq<char>) -> Option<Json> {
        match self {
            Json::Object(m) => if m.contains_key(key) {
                Some(m[key])
            } else {
                None
            },
            _ => None,
        }
    }

    /// The text of a string value.
    pub open spec fn as_text(self) -> Option<Seq<char>> {
        match self {
            Json::String(s) => Some(s),
            _ => None,
        }
    }

    /// The truth value of a boolean.
    pub open spec fn as_flag(self) -> Option<bool> {
        match self {
            Json::Bool(b) => Some(b),
            _ => None,
        }
    }

    /// The integer that a number holds exactly.
    pub open spec fn as_integer(self) -> Option<int> {
        match self {
            Json::Number(JsonNumber::Int(i)) => Some(i),
            _ => None,
        }
    }

    /// The integer of a number, where it is one from zero to `u64::MAX`.
    pub open spec fn as_u64(self) -> Option<u64> {
        match self.as_integer() {
            Some(i) => if 0 <= i <= u64::MAX {
                Some(i as u64)
            } else {
                None
            },
            None => None,
        }
    }

    /// The integer of a number, where it is one from `i64::MIN` to `i64::MAX`.
    pub open spec fn as_i64(self) -> Option<i64> {
        match self.as_integer() {
            Some(i) => if i64::MIN <= i <= i64::MAX {
                Some(i as i64)
            } else {
                None
            },
            None => None,
        }
    }

    /// The items of an array.
    pub open spec fn as_items(self) -> Option<Seq<Json>> {
        match self {
            Json::Array(items) => Some(items),
            _ => None,
        }
    }
}

/// What a `serde_json::Value` holds.
pub uninterp spec fn json_of(v: serde_json::Value) -> Json;

/// The value that a text denotes as JSON, `None` where `serde_json` rejects
/// the text.
pub uninterp spec fn json_text_value(text: Seq<char>) -> Option<Json>;

/// The model of a value that may be absent.
pub open spec fn model_of(x: Option<&serde_json::Value>) -> Option<Json> {
    match x {
        Some(v) => Some(json_of(*v)),
        None => None,
    }
}

/// The model of a decoded value that may be absent.
pub open spec fn model_of_decoded(x: Option<serde_json::Value>) -> Option<Json> {
    match x {
        Some(v) => Some(json_of(v)),
        None => None,
    }
}

/// The model of what parsing a text gave: the value's, or none after an
/// error.
pub open spec fn model_of_parsed(x: Result<serde_json::Value, serde_json::Error>) -> Option<Json> {
    match x {
        Ok(v) => Some(json_of(v)),
        Err(_) => None,
    }
}

/// The models of the items of a vector that may be absent, in order.
pub open spec fn models_of(x: Option<&Vec<serde_json::Value>>) -> Option<Seq<Json>> {
    match x {
        Some(items) => Some(items@.map_values(|v: serde_json::Value| json_of(v))),
        None => None,
    }
}

/// The model of a result that may be absent.
pub open spec fn viewed<T: View>(x: Option<T>) -> Option<T::V> {
    match x {
        Some(t) => Some(t@),
        None => None,
    }
}

/// Trusted: `serde_json::from_str::<Value>`. The call is a function of the
/// text alone: it yields a value exactly where the whole text is one JSON
/// value, and that value is what `json_text_value` names; for every other
/// text it yields an error.
#[verifier::external_body]
pub(crate) fn parse_value(text: &str) -> (r: Result<serde_json::Value, serde_json::Error>)
    ensures
        model_of_parsed(r) == json_text_value(text@),
{
    serde_json::from_str::<serde_json::Value>(text)
}

/// Trusted: `Value::get` with a string index. It returns the member of an
/// object under `key`, and `None` for a missing key and for every value that
/// is no object.
#[verifier::external_body]
pub(crate) fn value_member<'a>(v: &'a serde_json::Value, key: &str) -> (r: Option<
    &'a serde_json::Value,
>)
    ensures
        model_of(r) == json_of(*v).member(key@),
{
    v.get(key)
}

/// Trusted: `Value::as_str`. It returns the text of a string value and `None`
/// for every other value.
pub assume_specification<'a>[ serde_json::Value::as_str ](v: &'a serde_json::Value) -> (r: Option<
    &'a str,
>)
    ensures
        viewed(r) == json_of(*v).as_text(),
;

/// Trusted: `Value::as_bool`. It returns the truth value of a boolean and
/// `None` for every other value.
pub assume_specification[ serde_json::Value::as_bool ](v: &serde_json::Value) -> (r: Option<bool>)
    ensures
        r == json_of(*v).as_flag(),
;

/// Trusted: `Value::as_u64`. It returns the integer of a number that holds
/// one between zero and `u64::MAX`, and `None` for a negative integer, for a
/// number kept as a float and for every value that is no number.
pub assume_specification[ serde_json::Value::as_u64 ](v: &serde_json::Value) -> (r: Option<u64>)
    ensures
        r == json_of(*v).as_u64(),
;

/// Trusted: `Value::as_i64`. It returns the integer of a number that holds
/// one between `i64::MIN` and `i64::MAX`, and `None` for a larger integer,
/// for a number kept as a float and for every value that is no number.
pub assume_specification[ serde_json::Value::as_i64 ](v: &serde_json::Value) -> (r: Option<i64>)
    ensures
        r == json_of(*v).as_i64(),
;

/// Trusted: `Value::is_null`. It is true of the null value alone.
pub assume_specification[ serde_json::Value::is_null ](v: &serde_json::Value) -> (r: bool)
    ensures
        r == (json_of(*v) is Null),
;

/// Trusted: `Value::is_object`. It is true of objects alone.
pub assume_specification[ serde_json::Value::is_object ](v: &serde_json::Value) -> (r: bool)
    ensures
        r == (json_of(*v) is Object),
;

/// Trusted: `Value::as_array`. It returns the vector of an array, whose items
/// are the array's items in order, and `None` for every other value.
pub assume_specification<'a>[ serde_json::Value::as_array ](v: &'a serde_json::Value) -> (r: Option<
    &'a Vec<serde_json::Value>,
>)
    ensures
        models_of(r) == json_of(*v).as_items(),
;

/// Trusted: `Value::clone`. The copy holds what the value holds.
pub assume_specification[ <serde_json::Value as Clone>::clone ](v: &serde_json::Value) -> (r:
    serde_json::Value)
    ensures
        json_of(r) == json_of(*v),
;

} // verus!
