//! The fields of an event, read from a decoded value one by one.
//!
//! A field is required or optional. A required field must be present and of
//! its type. An optional field may be absent or `null`; where it is present
//! and not `null`, it must be of its type. A nested block, the metadata or a
//! pair of old and new, is an object, read by the names of its fields, or an
//! array of exactly its fields, read by their positions.

use crate::json::{model_of, value_member, viewed, Json};
use crate::types::{EventLength, EventMeta, EventMetaView, EventRevision};
use serde_json::Value;
use vstd::prelude::*;

verus! {

/// A required text: the member must be there and be a string.
pub open spec fn required_text(x: Option<Json>) -> Option<Seq<char>> {
    match x {
        Some(j) => j.as_text(),
        None => None,
    }
}

/// A required flag: the member must be there and be a boolean.
pub open spec fn required_flag(x: Option<Json>) -> Option<bool> {
    match x {
        Some(j) => j.as_flag(),
        None => None,
    }
}

/// A required `u32`: the member must be there and be an integer from zero to
/// `u32::MAX`.
pub open spec fn required_u32(x: Option<Json>) -> Option<u32> {
    match x {
        Some(j) => match j.as_integer() {
            Some(i) => if 0 <= i <= u32::MAX {
                Some(i as u32)
            } else {
                None
            },
            None => None,
        },
        None => None,
    }
}

/// A required `i32`: the member must be there and be an integer from
/// `i32::MIN` to `i32::MAX`.
pub open spec fn required_i32(x: Option<Json>) -> Option<i32> {
    match x {
        Some(j) => match j.as_integer() {
            Some(i) => if i32::MIN <= i <= i32::MAX {
                Some(i as i32)
            } else {
                None
            },
            None => None,
        },
        None => None,
    }
}

/// An optional flag. The outer `Option` says whether the member is
/// acceptable: an absent member and `null` both stand for no flag, a boolean
/// stands for itself, anything else is a mismatch.
pub open spec fn optional_flag(x: Option<Json>) -> Option<Option<bool>> {
    match x {
        None => Some(None),
        Some(Json::Null) => Some(None),
        Some(j) => match j.as_flag() {
            Some(b) => Some(Some(b)),
            None => None,
        },
    }
}

/// An optional `u32`, read like an optional flag.
pub open spec fn optional_u32(x: Option<Json>) -> Option<Option<u32>> {
    match x {
        None => Some(None),
        Some(Json::Null) => Some(None),
        Some(j) => match required_u32(Some(j)) {
            Some(n) => Some(Some(n)),
            None => None,
        },
    }
}

/// Reads a required text.
pub(crate) fn text_of(x: Option<&Value>) -> (r: Option<String>)
    ensures
        viewed(r) == required_text(model_of(x)),
{
    match x {
        Some(v) => match v.as_str() {
            Some(s) => Some(s.to_owned()),
            None => None,
        },
        None => None,
    }
}

/// Reads a required flag.
pub(crate) fn flag_of(x: Option<&Value>) -> (r: Option<bool>)
    ensures
        r == required_flag(model_of(x)),
{
    match x {
        Some(v) => v.as_bool(),
        None => None,
    }
}

/// Reads a required `u32`.
pub(crate) fn u32_of(x: Option<&Value>) -> (r: Option<u32>)
    ensures
        r == required_u32(model_of(x)),
{
    match x {
        Some(v) => match v.as_u64() {
            Some(n) => if n <= 0xffff_ffff {
                Some(n as u32)
            } else {
                None
            },
            None => None,
        },
        None => None,
    }
}

/// Reads a required `i32`.
pub(crate) fn i32_of(x: Option<&Value>) -> (r: Option<i32>)
    ensures
        r == required_i32(model_of(x)),
{
    match x {
        Some(v) => match v.as_i64() {
            Some(n) => if -0x8000_0000 <= n && n <= 0x7fff_ffff {
                Some(n as i32)
            } else {
                None
            },
            None => None,
        },
        None => None,
    }
}

/// Reads an optional flag.
pub(crate) fn optional_flag_of(x: Option<&Value>) -> (r: Option<Option<bool>>)
    ensures
        r == optional_flag(model_of(x)),
{
    match x {
        None => Some(None),
        Some(v) => if v.is_null() {
            Some(None)
        } else {
            match v.as_bool() {
                Some(b) => Some(Some(b)),
                None => None,
            }
        },
    }
}

/// Reads an optional `u32`.
pub(crate) fn optional_u32_of(x: Option<&Value>) -> (r: Option<Option<u32>>)
    ensures
        r == optional_u32(model_of(x)),
{
    match x {
        None => Some(None),
        Some(v) => if v.is_null() {
            Some(None)
        } else {
            match u32_of(Some(v)) {
                Some(n) => Some(Some(n)),
                None => None,
            }
        },
    }
}

/// Whether a value can stand for a nested block of `count` fields: an
/// object, whose fields are found by name, or an array of exactly `count`
/// items, whose fields are found by position.
pub open spec fn is_block(b: Option<Json>, count: nat) -> bool {
    match b {
        Some(Json::Object(_)) => true,
        Some(Json::Array(items)) => items.len() == count,
        _ => false,
    }
}

/// The field of a nested block that has the name `key` and the position
/// `index`.
pub open spec fn block_field(b: Option<Json>, key: Seq<char>, index: int) -> Option<Json> {
    match b {
        Some(Json::Object(m)) => Json::Object(m).member(key),
        Some(Json::Array(items)) => if 0 <= index < items.len() {
            Some(items[index])
        } else {
            None
        },
        _ => None,
    }
}

/// Whether a value can stand for a nested block of `count` fields.
fn check_block(b: Option<&Value>, count: usize) -> (r: bool)
    ensures
        r == is_block(model_of(b), count as nat),
{
    match b {
        Some(v) => match v.as_array() {
            Some(items) => items.len() == count,
            None => v.is_object(),
        },
        None => false,
    }
}

/// Finds a field of a nested block, by name in an object and by position in
/// an array.
fn field_of<'a>(b: Option<&'a Value>, key: &str, index: usize) -> (r: Option<&'a Value>)
    ensures
        model_of(r) == block_field(model_of(b), key@, index as int),
{
    match b {
        Some(v) => match v.as_array() {
            Some(items) => if index < items.len() {
                Some(&items[index])
            } else {
                None
            },
            None => value_member(v, key),
        },
        None => None,
    }
}

/// The pair of byte lengths that a block holds: `old`, optional, then `new`.
pub open spec fn length_of(b: Option<Json>) -> Option<EventLength> {
    if is_block(b, 2) && optional_u32(block_field(b, "old"@, 0)) is Some && required_u32(
        block_field(b, "new"@, 1),
    ) is Some {
        Some(
            EventLength {
                old: optional_u32(block_field(b, "old"@, 0))->0,
                new: required_u32(block_field(b, "new"@, 1))->0,
            },
        )
    } else {
        None
    }
}

/// The pair of revision ids that a block holds: `old`, optional, then `new`.
pub open spec fn revision_of(b: Option<Json>) -> Option<EventRevision> {
    if is_block(b, 2) && optional_u32(block_field(b, "old"@, 0)) is Some && required_u32(
        block_field(b, "new"@, 1),
    ) is Some {
        Some(
            EventRevision {
                old: optional_u32(block_field(b, "old"@, 0))->0,
                new: required_u32(block_field(b, "new"@, 1))->0,
            },
        )
    } else {
        None
    }
}

/// Reads a pair of byte lengths.
pub(crate) fn read_length(b: Option<&Value>) -> (r: Option<EventLength>)
    ensures
        r == length_of(model_of(b)),
{
    if !check_block(b, 2) {
        return None;
    }
    let old = optional_u32_of(field_of(b, "old", 0))?;
    let new = u32_of(field_of(b, "new", 1))?;
    Some(EventLength { old, new })
}

/// Reads a pair of revision ids.
pub(crate) fn read_revision(b: Option<&Value>) -> (r: Option<EventRevision>)
    ensures
        r == revision_of(model_of(b)),
{
    if !check_block(b, 2) {
        return None;
    }
    let old = optional_u32_of(field_of(b, "old", 0))?;
    let new = u32_of(field_of(b, "new", 1))?;
    Some(EventRevision { old, new })
}

/// Whether a block holds every field of the metadata, each of its type.
pub open spec fn meta_complete(b: Option<Json>) -> bool {
    &&& is_block(b, 9)
    &&& required_text(block_field(b, "uri"@, 0)) is Some
    &&& required_text(block_field(b, "request_id"@, 1)) is Some
    &&& required_text(block_field(b, "id"@, 2)) is Some
    &&& required_text(block_field(b, "dt"@, 3)) is Some
    &&& required_text(block_field(b, "domain"@, 4)) is Some
    &&& required_text(block_field(b, "stream"@, 5)) is Some
    &&& required_text(block_field(b, "topic"@, 6)) is Some
    &&& required_u32(block_field(b, "partition"@, 7)) is Some
    &&& required_u32(block_field(b, "offset"@, 8)) is Some
}

/// The metadata that a block holds.
pub open spec fn meta_of(b: Option<Json>) -> Option<EventMetaView> {
    if meta_complete(b) {
        Some(
            EventMetaView {
                uri: required_text(block_field(b, "uri"@, 0))->0,
                request_id: required_text(block_field(b, "request_id"@, 1))->0,
                id: required_text(block_field(b, "id"@, 2))->0,
                dt: required_text(block_field(b, "dt"@, 3))->0,
                domain: required_text(block_field(b, "domain"@, 4))->0,
                stream: required_text(block_field(b, "stream"@, 5))->0,
                topic: required_text(block_field(b, "topic"@, 6))->0,
                partition: required_u32(block_field(b, "partition"@, 7))->0,
                offset: required_u32(block_field(b, "offset"@, 8))->0,
            },
        )
    } else {
        None
    }
}

/// Reads the metadata of an event.
pub(crate) fn read_meta(b: Option<&Value>) -> (r: Option<EventMeta>)
    ensures
        viewed(r) == meta_of(model_of(b)),
{
    if !check_block(b, 9) {
        return None;
    }
    let uri = text_of(field_of(b, "uri", 0))?;
    let request_id = text_of(field_of(b, "request_id", 1))?;
    let id = text_of(field_of(b, "id", 2))?;
    let dt = text_of(field_of(b, "dt", 3))?;
    let domain = text_of(field_of(b, "domain", 4))?;
    let stream = text_of(field_of(b, "stream", 5))?;
    let topic = text_of(field_of(b, "topic", 6))?;
    let partition = u32_of(field_of(b, "partition", 7))?;
    let offset = u32_of(field_of(b, "offset", 8))?;
    Some(EventMeta { uri, request_id, id, dt, domain, stream, topic, partition, offset })
}

} // verus!
