//! From a raw line of the feed to a typed event: the line decoder and the
//! event classifier.

use crate::fields::{
    block_field, flag_of, i32_of, is_block, length_of, meta_of, optional_flag, optional_flag_of,
    read_length, read_meta, read_revision, required_flag, required_i32, required_text,
    required_u32, revision_of, text_of, u32_of,
};
use crate::json::{
    json_of, json_text_value, model_of_decoded, parse_value, value_member, viewed, Json,
    JsonNumber,
};
use crate::text::same_text;
use crate::types::{
    EditEvent, EditEventView, Event, EventMetaView, EventView, LogEvent, LogEventView,
};
use serde_json::Value;
use vstd::prelude::*;

verus! {

/// What a line of the feed decodes to: nothing for an empty line, a
/// keep-alive, and for a line that is no JSON text.
pub open spec fn decoded(line: Seq<char>) -> Option<Json> {
    if line.len() == 0 {
        None
    } else {
        json_text_value(line)
    }
}

/// Decodes one raw line of the feed. An empty line and a line that does not
/// parse give no value; neither is an error.
pub fn handle_line(line: &str) -> (r: Option<Value>)
    ensures
        model_of_decoded(r) == decoded(line@),
        line@.len() == 0 ==> r is None,
        json_text_value(line@) is None ==> r is None,
{
    if line.is_empty() {
        return None;
    }
    match parse_value(line) {
        Ok(value) => Some(value),
        Err(_) => None,
    }
}

/// Whether an object holds every required field of an edit, each of its type,
/// and no optional field of another type than its own.
pub open spec fn edit_complete(j: Json) -> bool {
    &&& required_text(j.member("$schema"@)) is Some
    &&& meta_of(j.member("meta"@)) is Some
    &&& required_u32(j.member("id"@)) is Some
    &&& required_text(j.member("type"@)) is Some
    &&& required_i32(j.member("namespace"@)) is Some
    &&& required_text(j.member("title"@)) is Some
    &&& required_text(j.member("comment"@)) is Some
    &&& required_text(j.member("parsedcomment"@)) is Some
    &&& required_u32(j.member("timestamp"@)) is Some
    &&& required_text(j.member("user"@)) is Some
    &&& required_flag(j.member("bot"@)) is Some
    &&& optional_flag(j.member("minor"@)) is Some
    &&& optional_flag(j.member("patrolled"@)) is Some
    &&& length_of(j.member("length"@)) is Some
    &&& revision_of(j.member("revision"@)) is Some
    &&& required_text(j.member("server_url"@)) is Some
    &&& required_text(j.member("server_name"@)) is Some
    &&& required_text(j.member("server_script_path"@)) is Some
    &&& required_text(j.member("wiki"@)) is Some
}

/// The edit that an object maps to, field by field; `None` where a required
/// field is missing or a field has another type than its own.
pub open spec fn edit_of(j: Json) -> Option<EditEventView> {
    if edit_complete(j) {
        Some(
            EditEventView {
                schema: required_text(j.member("$schema"@))->0,
                meta: meta_of(j.member("meta"@))->0,
                id: required_u32(j.member("id"@))->0,
                type_: required_text(j.member("type"@))->0,
                namespace: required_i32(j.member("namespace"@))->0,
                title: required_text(j.member("title"@))->0,
                comment: required_text(j.member("comment"@))->0,
                parsedcomment: required_text(j.member("parsedcomment"@))->0,
                timestamp: required_u32(j.member("timestamp"@))->0,
                user: required_text(j.member("user"@))->0,
                bot: required_flag(j.member("bot"@))->0,
                minor: optional_flag(j.member("minor"@))->0,
                patrolled: optional_flag(j.member("patrolled"@))->0,
                length: length_of(j.member("length"@))->0,
                revision: revision_of(j.member("revision"@))->0,
                server_url: required_text(j.member("server_url"@))->0,
                server_name: required_text(j.member("server_name"@))->0,
                server_script_path: required_text(j.member("server_script_path"@))->0,
                wiki: required_text(j.member("wiki"@))->0,
            },
        )
    } else {
        None
    }
}

/// Maps a decoded value into the shape of an edit.
pub fn read_edit(value: &Value) -> (r: Option<EditEvent>)
    ensures
        viewed(r) == edit_of(json_of(*value)),
{
    let schema = text_of(value_member(value, "$schema"))?;
    let meta = read_meta(value_member(value, "meta"))?;
    let id = u32_of(value_member(value, "id"))?;
    let type_ = text_of(value_member(value, "type"))?;
    let namespace = i32_of(value_member(value, "namespace"))?;
    let title = text_of(value_member(value, "title"))?;
    let comment = text_of(value_member(value, "comment"))?;
    let parsedcomment = text_of(value_member(value, "parsedcomment"))?;
    let timestamp = u32_of(value_member(value, "timestamp"))?;
    let user = text_of(value_member(value, "user"))?;
    let bot = flag_of(value_member(value, "bot"))?;
    let minor = optional_flag_of(value_member(value, "minor"))?;
    let patrolled = optional_flag_of(value_member(value, "patrolled"))?;
    let length = read_length(value_member(value, "length"))?;
    let revision = read_revision(value_member(value, "revision"))?;
    let server_url = text_of(value_member(value, "server_url"))?;
    let server_name = text_of(value_member(value, "server_name"))?;
    let server_script_path = text_of(value_member(value, "server_script_path"))?;
    let wiki = text_of(value_member(value, "wiki"))?;
    Some(
        EditEvent {
            schema,
            meta,
            id,
            type_,
            namespace,
            title,
            comment,
            parsedcomment,
            timestamp,
            user,
            bot,
            minor,
            patrolled,
            length,
            revision,
            server_url,
            server_name,
            server_script_path,
            wiki,
        },
    )
}

/// Whether an object holds every required field of a log entry, each of its
/// type. The log parameters may be any JSON value.
pub open spec fn log_complete(j: Json) -> bool {
    &&& required_text(j.member("$schema"@)) is Some
    &&& meta_of(j.member("meta"@)) is Some
    &&& required_text(j.member("type"@)) is Some
    &&& required_i32(j.member("namespace"@)) is Some
    &&& required_text(j.member("title"@)) is Some
    &&& required_text(j.member("comment"@)) is Some
    &&& required_text(j.member("parsedcomment"@)) is Some
    &&& required_u32(j.member("timestamp"@)) is Some
    &&& required_text(j.member("user"@)) is Some
    &&& required_flag(j.member("bot"@)) is Some
    &&& required_u32(j.member("log_id"@)) is Some
    &&& required_text(j.member("log_type"@)) is Some
    &&& required_text(j.member("log_action"@)) is Some
    &&& j.member("log_params"@) is Some
    &&& required_text(j.member("log_action_comment"@)) is Some
    &&& required_text(j.member("server_url"@)) is Some
    &&& required_text(j.member("server_name"@)) is Some
    &&& required_text(j.member("server_script_path"@)) is Some
    &&& required_text(j.member("wiki"@)) is Some
}

/// The log entry that an object maps to, field by field; `None` where a
/// required field is missing or a field has another type than its own.
pub open spec fn log_of(j: Json) -> Option<LogEventView> {
    if log_complete(j) {
        Some(
            LogEventView {
                schema: required_text(j.member("$schema"@))->0,
                meta: meta_of(j.member("meta"@))->0,
                type_: required_text(j.member("type"@))->0,
                namespace: required_i32(j.member("namespace"@))->0,
                title: required_text(j.member("title"@))->0,
                comment: required_text(j.member("comment"@))->0,
                parsedcomment: required_text(j.member("parsedcomment"@))->0,
                timestamp: required_u32(j.member("timestamp"@))->0,
                user: required_text(j.member("user"@))->0,
                bot: required_flag(j.member("bot"@))->0,
                log_id: required_u32(j.member("log_id"@))->0,
                log_type: required_text(j.member("log_type"@))->0,
                log_action: required_text(j.member("log_action"@))->0,
                log_params: j.member("log_params"@)->0,
                log_action_comment: required_text(j.member("log_action_comment"@))->0,
                server_url: required_text(j.member("server_url"@))->0,
                server_name: required_text(j.member("server_name"@))->0,
                server_script_path: required_text(j.member("server_script_path"@))->0,
                wiki: required_text(j.member("wiki"@))->0,
            },
        )
    } else {
        None
    }
}

/// Maps a decoded value into the shape of a log entry.
pub fn read_log(value: &Value) -> (r: Option<LogEvent>)
    ensures
        viewed(r) == log_of(json_of(*value)),
{
    let schema = text_of(value_member(value, "$schema"))?;
    let meta = read_meta(value_member(value, "meta"))?;
    let type_ = text_of(value_member(value, "type"))?;
    let namespace = i32_of(value_member(value, "namespace"))?;
    let title = text_of(value_member(value, "title"))?;
    let comment = text_of(value_member(value, "comment"))?;
    let parsedcomment = text_of(value_member(value, "parsedcomment"))?;
    let timestamp = u32_of(value_member(value, "timestamp"))?;
    let user = text_of(value_member(value, "user"))?;
    let bot = flag_of(value_member(value, "bot"))?;
    let log_id = u32_of(value_member(value, "log_id"))?;
    let log_type = text_of(value_member(value, "log_type"))?;
    let log_action = text_of(value_member(value, "log_action"))?;
    let log_params = value_member(value, "log_params")?.clone();
    let log_action_comment = text_of(value_member(value, "log_action_comment"))?;
    let server_url = text_of(value_member(value, "server_url"))?;
    let server_name = text_of(value_member(value, "server_name"))?;
    let server_script_path = text_of(value_member(value, "server_script_path"))?;
    let wiki = text_of(value_member(value, "wiki"))?;
    Some(
        LogEvent {
            schema,
            meta,
            type_,
            namespace,
            title,
            comment,
            parsedcomment,
            timestamp,
            user,
            bot,
            log_id,
            log_type,
            log_action,
            log_params,
            log_action_comment,
            server_url,
            server_name,
            server_script_path,
            wiki,
        },
    )
}

/// The discriminant of a decoded value: the text of its member `type`, where
/// it is an object that has one.
pub open spec fn discriminant(j: Json) -> Option<Seq<char>> {
    required_text(j.member("type"@))
}

/// The event that a decoded value stands for. The discriminant decides which
/// shape is tried, and only that shape is tried; a value with another
/// discriminant, or with none, stands for no event.
pub open spec fn event_of(j: Json) -> Option<EventView> {
    if discriminant(j) == Some("edit"@) {
        match edit_of(j) {
            Some(edit) => Some(EventView::Edit(edit)),
            None => None,
        }
    } else if discriminant(j) == Some("log"@) {
        match log_of(j) {
            Some(log) => Some(EventView::Log(log)),
            None => None,
        }
    } else {
        None
    }
}

/// The event that a raw line of the feed stands for.
pub open spec fn event_of_line(line: Seq<char>) -> Option<EventView> {
    match decoded(line) {
        Some(j) => event_of(j),
        None => None,
    }
}

/// Classifies a decoded value: an edit, a log entry, or nothing. A value of
/// a known kind that does not fit the kind's shape is dropped like a value of
/// an unknown kind.
pub fn classify(value: &Value) -> (r: Option<Event>)
    ensures
        viewed(r) == event_of(json_of(*value)),
        (discriminant(json_of(*value)) == Some("edit"@) && edit_complete(json_of(*value))) ==> (r
            matches Some(Event::Edit(edit)) && holds_edit(json_of(*value), edit@)),
        (discriminant(json_of(*value)) != Some("edit"@) && discriminant(json_of(*value)) != Some(
            "log"@,
        )) ==> r is None,
{
    let kind = match value_member(value, "type") {
        Some(t) => match t.as_str() {
            Some(kind) => kind,
            None => { return None; },
        },
        None => { return None; },
    };
    if same_text(kind, "edit") {
        match read_edit(value) {
            Some(edit) => Some(Event::Edit(edit)),
            None => None,
        }
    } else if same_text(kind, "log") {
        match read_log(value) {
            Some(log) => Some(Event::Log(log)),
            None => None,
        }
    } else {
        None
    }
}

/// Decodes and classifies one raw line of the feed.
pub fn classify_line(line: &str) -> (r: Option<Event>)
    ensures
        viewed(r) == event_of_line(line@),
{
    match handle_line(line) {
        Some(value) => classify(&value),
        None => None,
    }
}

/// An integer as JSON.
pub open spec fn integer(i: int) -> Json {
    Json::Number(JsonNumber::Int(i))
}

/// Whether `x` is the member that an optional flag came from: no member or
/// `null` for no flag, the boolean for a flag.
pub open spec fn holds_optional_flag(x: Option<Json>, flag: Option<bool>) -> bool {
    match flag {
        Some(b) => x == Some(Json::Bool(b)),
        None => x is None || x == Some(Json::Null),
    }
}

/// Whether `x` is the member that an optional `u32` came from.
pub open spec fn holds_optional_u32(x: Option<Json>, n: Option<u32>) -> bool {
    match n {
        Some(n) => x == Some(integer(n as int)),
        None => x is None || x == Some(Json::Null),
    }
}

/// Whether the block `b` holds exactly the metadata `meta`, field by field.
pub open spec fn holds_meta(b: Option<Json>, meta: EventMetaView) -> bool {
    &&& is_block(b, 9)
    &&& block_field(b, "uri"@, 0) == Some(Json::String(meta.uri))
    &&& block_field(b, "request_id"@, 1) == Some(Json::String(meta.request_id))
    &&& block_field(b, "id"@, 2) == Some(Json::String(meta.id))
    &&& block_field(b, "dt"@, 3) == Some(Json::String(meta.dt))
    &&& block_field(b, "domain"@, 4) == Some(Json::String(meta.domain))
    &&& block_field(b, "stream"@, 5) == Some(Json::String(meta.stream))
    &&& block_field(b, "topic"@, 6) == Some(Json::String(meta.topic))
    &&& block_field(b, "partition"@, 7) == Some(integer(meta.partition as int))
    &&& block_field(b, "offset"@, 8) == Some(integer(meta.offset as int))
}

/// Whether the object `j` holds exactly the fields of `edit`: each field of
/// the edit, written as JSON, is the member of `j` that has the field's name.
pub open spec fn holds_edit(j: Json, edit: EditEventView) -> bool {
    &&& j.member("$schema"@) == Some(Json::String(edit.schema))
    &&& holds_meta(j.member("meta"@), edit.meta)
    &&& j.member("id"@) == Some(integer(edit.id as int))
    &&& j.member("type"@) == Some(Json::String(edit.type_))
    &&& j.member("namespace"@) == Some(integer(edit.namespace as int))
    &&& j.member("title"@) == Some(Json::String(edit.title))
    &&& j.member("comment"@) == Some(Json::String(edit.comment))
    &&& j.member("parsedcomment"@) == Some(Json::String(edit.parsedcomment))
    &&& j.member("timestamp"@) == Some(integer(edit.timestamp as int))
    &&& j.member("user"@) == Some(Json::String(edit.user))
    &&& j.member("bot"@) == Some(Json::Bool(edit.bot))
    &&& holds_optional_flag(j.member("minor"@), edit.minor)
    &&& holds_optional_flag(j.member("patrolled"@), edit.patrolled)
    &&& is_block(j.member("length"@), 2)
    &&& holds_optional_u32(block_field(j.member("length"@), "old"@, 0), edit.length.old)
    &&& block_field(j.member("length"@), "new"@, 1) == Some(integer(edit.length.new as int))
    &&& is_block(j.member("revision"@), 2)
    &&& holds_optional_u32(block_field(j.member("revision"@), "old"@, 0), edit.revision.old)
    &&& block_field(j.member("revision"@), "new"@, 1) == Some(integer(edit.revision.new as int))
    &&& j.member("server_url"@) == Some(Json::String(edit.server_url))
    &&& j.member("server_name"@) == Some(Json::String(edit.server_name))
    &&& j.member("server_script_path"@) == Some(Json::String(edit.server_script_path))
    &&& j.member("wiki"@) == Some(Json::String(edit.wiki))
}

/// Round trip of an edit. An object whose discriminant is `edit`, in which
/// every required field is present and every field that is present has its
/// type, is classified as an edit, and each field of that edit, written back
/// as JSON, is the member it was read from.
pub proof fn law_edit_round_trip(j: Json)
    requires
        discriminant(j) == Some("edit"@),
        edit_complete(j),
    ensures
        event_of(j) == Some(EventView::Edit(edit_of(j)->0)),
        holds_edit(j, edit_of(j)->0),
{
}

/// The converse of the round trip: whatever is classified as an edit came
/// from an object that holds exactly the fields of that edit.
pub proof fn law_edits_come_from_their_fields(j: Json, edit: EditEventView)
    requires
        event_of(j) == Some(EventView::Edit(edit)),
    ensures
        discriminant(j) == Some("edit"@),
        holds_edit(j, edit),
{
}

/// Whether the object `j` holds exactly the fields of `log`: each field of
/// the log entry, written as JSON, is the member of `j` that has the field's
/// name.
pub open spec fn holds_log(j: Json, log: LogEventView) -> bool {
    &&& j.member("$schema"@) == Some(Json::String(log.schema))
    &&& holds_meta(j.member("meta"@), log.meta)
    &&& j.member("type"@) == Some(Json::String(log.type_))
    &&& j.member("namespace"@) == Some(integer(log.namespace as int))
    &&& j.member("title"@) == Some(Json::String(log.title))
    &&& j.member("comment"@) == Some(Json::String(log.comment))
    &&& j.member("parsedcomment"@) == Some(Json::String(log.parsedcomment))
    &&& j.member("timestamp"@) == Some(integer(log.timestamp as int))
    &&& j.member("user"@) == Some(Json::String(log.user))
    &&& j.member("bot"@) == Some(Json::Bool(log.bot))
    &&& j.member("log_id"@) == Some(integer(log.log_id as int))
    &&& j.member("log_type"@) == Some(Json::String(log.log_type))
    &&& j.member("log_action"@) == Some(Json::String(log.log_action))
    &&& j.member("log_params"@) == Some(log.log_params)
    &&& j.member("log_action_comment"@) == Some(Json::String(log.log_action_comment))
    &&& j.member("server_url"@) == Some(Json::String(log.server_url))
    &&& j.member("server_name"@) == Some(Json::String(log.server_name))
    &&& j.member("server_script_path"@) == Some(Json::String(log.server_script_path))
    &&& j.member("wiki"@) == Some(Json::String(log.wiki))
}

/// Round trip of a log entry, as of an edit: an object whose discriminant is
/// `log`, in which every required field is present and of its type, is
/// classified as a log entry whose fields, written back as JSON, are the
/// members they were read from.
pub proof fn law_log_round_trip(j: Json)
    requires
        discriminant(j) == Some("log"@),
        log_complete(j),
    ensures
        event_of(j) == Some(EventView::Log(log_of(j)->0)),
        holds_log(j, log_of(j)->0),
{
    law_kinds_differ();
}

/// The two discriminants are different texts.
pub proof fn law_kinds_differ()
    ensures
        "edit"@ != "log"@,
{
    reveal_strlit("edit");
    reveal_strlit("log");
    assert("edit"@.len() == 4);
    assert("log"@.len() == 3);
}

/// The event that a decoded value stands for where the classifier asks for
/// a log entry first and for an edit second.
pub open spec fn event_of_log_first(j: Json) -> Option<EventView> {
    if discriminant(j) == Some("log"@) {
        match log_of(j) {
            Some(log) => Some(EventView::Log(log)),
            None => None,
        }
    } else if discriminant(j) == Some("edit"@) {
        match edit_of(j) {
            Some(edit) => Some(EventView::Edit(edit)),
            None => None,
        }
    } else {
        None
    }
}

/// The two kinds exclude each other, so the order in which the classifier
/// asks for them does not matter.
pub proof fn law_classification_order_does_not_matter(j: Json)
    ensures
        event_of(j) == event_of_log_first(j),
{
    law_kinds_differ();
}

/// The flags of an edit default to `false`. In an object that is classified
/// as an edit, a `minor` that is absent or `null` gives an edit that is not
/// minor, and a `minor` that is present gives its own value; likewise for
/// `patrolled`.
pub proof fn law_flags_default_to_false(j: Json, flag: bool)
    requires
        discriminant(j) == Some("edit"@),
        edit_complete(j),
    ensures
        j.member("minor"@) is None ==> !edit_of(j)->0.is_minor(),
        j.member("minor"@) == Some(Json::Null) ==> !edit_of(j)->0.is_minor(),
        j.member("minor"@) == Some(Json::Bool(flag)) ==> edit_of(j)->0.is_minor() == flag,
        j.member("patrolled"@) is None ==> !edit_of(j)->0.is_patrolled(),
        j.member("patrolled"@) == Some(Json::Null) ==> !edit_of(j)->0.is_patrolled(),
        j.member("patrolled"@) == Some(Json::Bool(flag)) ==> edit_of(j)->0.is_patrolled() == flag,
{
}

/// A value whose discriminant is neither `edit` nor `log`, or that has none,
/// stands for no event.
pub proof fn law_unknown_kind_is_no_event(j: Json)
    requires
        discriminant(j) != Some("edit"@),
        discriminant(j) != Some("log"@),
    ensures
        event_of(j) is None,
{
}

} // verus!
