use eventstreams::decode::{classify, classify_line, handle_line, read_edit, read_log};
use eventstreams::types::Event;
use serde_json::{Number, Value};

const EDIT: &str = r#"{"$schema":"/mediawiki/recentchange/1.0.0","meta":{"uri":"https://en.wikipedia.org/wiki/Foo_Bar","request_id":"a1b2","id":"c3d4","dt":"2021-01-01T00:00:00Z","domain":"en.wikipedia.org","stream":"mediawiki.recentchange","topic":"eqiad.mediawiki.recentchange","partition":0,"offset":123456},"id":1234,"type":"edit","namespace":0,"title":"Foo Bar","comment":"fix typo","parsedcomment":"fix <b>typo</b>","timestamp":1609459200,"user":"Alice","bot":false,"minor":true,"patrolled":false,"length":{"old":100,"new":120},"revision":{"old":122,"new":123},"server_url":"https://en.wikipedia.org","server_name":"en.wikipedia.org","server_script_path":"/w","wiki":"enwiki"}"#;

const LOG: &str = r#"{"$schema":"/mediawiki/recentchange/1.0.0","meta":{"uri":"https://commons.wikimedia.org/wiki/File:X.jpg","request_id":"r","id":"i","dt":"2021-01-01T00:00:01Z","domain":"commons.wikimedia.org","stream":"mediawiki.recentchange","topic":"eqiad.mediawiki.recentchange","partition":0,"offset":123457},"type":"log","namespace":6,"title":"File:X.jpg","comment":"dup","parsedcomment":"dup","timestamp":1609459201,"user":"Bob","bot":true,"log_id":77,"log_type":"delete","log_action":"delete","log_params":{"reason":["a",1.5,null]},"log_action_comment":"deleted File:X.jpg","server_url":"https://commons.wikimedia.org","server_name":"commons.wikimedia.org","server_script_path":"/w","wiki":"commonswiki"}"#;

fn object_of(text: &str) -> serde_json::Map<String, Value> {
    match handle_line(text) {
        Some(Value::Object(map)) => map,
        other => panic!("no object: {:?}", other),
    }
}

fn edit_with(key: &str, value: Value) -> Value {
    let mut map = object_of(EDIT);
    map.insert(key.to_string(), value);
    Value::Object(map)
}

fn edit_without(key: &str) -> Value {
    let mut map = object_of(EDIT);
    map.remove(key);
    Value::Object(map)
}

fn number(n: i64) -> Value {
    Value::Number(Number::from(n))
}

fn text(s: &str) -> Value {
    Value::String(s.to_string())
}

#[test]
fn test_handle_line() {
    assert_eq!(None, handle_line(""));
    assert_eq!(None, handle_line("{invalid JSON"));
    let mut expected = serde_json::Map::new();
    expected.insert("foo".to_string(), Value::String("bar".to_string()));
    assert_eq!(
        Value::Object(expected),
        handle_line(r#"{"foo": "bar"}"#).unwrap()
    )
}

#[test]
fn empty_line_decodes_to_nothing() {
    assert!(handle_line("").is_none());
    assert!(classify_line("").is_none());
}

#[test]
fn invalid_lines_decode_to_nothing() {
    assert!(handle_line("{invalid JSON").is_none());
    assert!(handle_line(r#"{"type":"edit""#).is_none());
    assert!(handle_line(r#"{"a":1} trailing"#).is_none());
    assert!(handle_line(" ").is_none());
    assert!(classify_line("{invalid JSON").is_none());
}

#[test]
fn valid_lines_decode_unchanged() {
    assert_eq!(handle_line("null"), Some(Value::Null));
    assert_eq!(handle_line("true"), Some(Value::Bool(true)));
    assert_eq!(handle_line("-3"), Some(number(-3)));
    assert_eq!(handle_line(r#""x""#), Some(text("x")));
    assert_eq!(
        handle_line("[1, \"a\"]"),
        Some(Value::Array(vec![number(1), text("a")]))
    );
    assert_eq!(handle_line(" {} "), Some(Value::Object(serde_json::Map::new())));
}

#[test]
fn edit_line_is_classified_with_its_fields() {
    let edit = match classify_line(EDIT) {
        Some(Event::Edit(edit)) => edit,
        other => panic!("no edit: {:?}", other),
    };
    assert_eq!(edit.id, 1234);
    assert_eq!(edit.namespace, 0);
    assert_eq!(edit.title, "Foo Bar");
    assert_eq!(edit.comment, "fix typo");
    assert_eq!(edit.parsedcomment, "fix <b>typo</b>");
    assert_eq!(edit.timestamp, 1609459200);
    assert_eq!(edit.user, "Alice");
    assert!(!edit.bot);
    assert!(edit.is_minor());
    assert!(!edit.is_patrolled());
    assert_eq!(edit.length.old, Some(100));
    assert_eq!(edit.length.new, 120);
    assert_eq!(edit.revision.old, Some(122));
    assert_eq!(edit.revision.new, 123);
    assert_eq!(edit.server_url, "https://en.wikipedia.org");
    assert_eq!(edit.server_name, "en.wikipedia.org");
    assert_eq!(edit.server_script_path, "/w");
    assert_eq!(edit.wiki, "enwiki");
}

#[test]
fn log_line_is_classified_with_its_fields() {
    let log = match classify_line(LOG) {
        Some(Event::Log(log)) => log,
        other => panic!("no log entry: {:?}", other),
    };
    assert_eq!(log.namespace, 6);
    assert_eq!(log.title, "File:X.jpg");
    assert_eq!(log.comment, "dup");
    assert_eq!(log.parsedcomment, "dup");
    assert_eq!(log.timestamp, 1609459201);
    assert_eq!(log.user, "Bob");
    assert!(log.bot);
    assert_eq!(log.log_id, 77);
    assert_eq!(log.log_type, "delete");
    assert_eq!(log.log_action, "delete");
    assert_eq!(log.log_action_comment, "deleted File:X.jpg");
    assert_eq!(log.server_url, "https://commons.wikimedia.org");
    assert_eq!(log.server_name, "commons.wikimedia.org");
    assert_eq!(log.server_script_path, "/w");
    assert_eq!(log.wiki, "commonswiki");
    assert_eq!(log.api_url(), "https://commons.wikimedia.org/w/api.php");
}

#[test]
fn log_parameters_are_kept_as_they_came() {
    let log = match classify_line(LOG) {
        Some(Event::Log(log)) => log,
        other => panic!("no log entry: {:?}", other),
    };
    let mut expected = serde_json::Map::new();
    expected.insert(
        "reason".to_string(),
        Value::Array(vec![
            text("a"),
            Value::Number(Number::from_f64(1.5).unwrap()),
            Value::Null,
        ]),
    );
    assert_eq!(log.log_params, Value::Object(expected));
    let mut map = object_of(LOG);
    map.insert("log_params".to_string(), Value::Null);
    match classify(&Value::Object(map)) {
        Some(Event::Log(log)) => assert_eq!(log.log_params, Value::Null),
        other => panic!("no log entry: {:?}", other),
    }
}

#[test]
fn log_without_parameters_is_dropped() {
    let mut map = object_of(LOG);
    map.remove("log_params");
    assert!(classify(&Value::Object(map)).is_none());
}

#[test]
fn unknown_kinds_are_dropped() {
    assert!(classify(&edit_with("type", text("categorize"))).is_none());
    assert!(classify(&edit_with("type", text("new"))).is_none());
    assert!(classify(&edit_with("type", text("Edit"))).is_none());
    assert!(classify(&edit_with("type", text(""))).is_none());
    assert!(classify(&edit_with("type", number(5))).is_none());
    assert!(classify(&edit_with("type", Value::Null)).is_none());
    assert!(classify(&edit_without("type")).is_none());
    assert!(classify_line(r#"{"type":"categorize"}"#).is_none());
    assert!(classify_line(r#"{"foo": "bar"}"#).is_none());
}

#[test]
fn values_that_are_no_objects_are_dropped() {
    assert!(classify(&Value::Null).is_none());
    assert!(classify(&text("edit")).is_none());
    assert!(classify(&Value::Array(vec![text("edit")])).is_none());
    assert!(classify_line("[]").is_none());
    assert!(classify_line("17").is_none());
}

#[test]
fn the_kind_decides_which_shape_is_tried() {
    // An edit's fields under the discriminant of a log entry fit no shape.
    assert!(classify(&edit_with("type", text("log"))).is_none());
    let mut map = object_of(LOG);
    map.insert("type".to_string(), text("edit"));
    assert!(classify(&Value::Object(map)).is_none());
    // The mapping itself does not look at the discriminant.
    assert!(read_edit(&edit_with("type", text("log"))).is_some());
    assert!(read_log(&edit_with("type", text("log"))).is_none());
}

#[test]
fn edit_with_a_missing_required_field_is_dropped() {
    for key in [
        "$schema",
        "meta",
        "id",
        "namespace",
        "title",
        "comment",
        "parsedcomment",
        "timestamp",
        "user",
        "bot",
        "length",
        "revision",
        "server_url",
        "server_name",
        "server_script_path",
        "wiki",
    ] {
        assert!(classify(&edit_without(key)).is_none(), "{}", key);
    }
}

#[test]
fn edit_with_a_field_of_another_type_is_dropped() {
    assert!(classify(&edit_with("title", number(5))).is_none());
    assert!(classify(&edit_with("title", Value::Null)).is_none());
    assert!(classify(&edit_with("id", text("1234"))).is_none());
    assert!(classify(&edit_with("id", Value::Null)).is_none());
    assert!(classify(&edit_with("bot", number(0))).is_none());
    assert!(classify(&edit_with("bot", Value::Null)).is_none());
    assert!(classify(&edit_with("minor", text("yes"))).is_none());
    assert!(classify(&edit_with("patrolled", number(1))).is_none());
    assert!(classify(&edit_with("meta", text("x"))).is_none());
    assert!(classify(&edit_with("length", number(120))).is_none());
    assert!(classify(&edit_with("revision", Value::Null)).is_none());
}

#[test]
fn integers_are_held_to_their_range() {
    let id_of = |value: Value| match classify(&edit_with("id", value)) {
        Some(Event::Edit(edit)) => Some(edit.id),
        _ => None,
    };
    assert_eq!(id_of(number(0)), Some(0));
    assert_eq!(id_of(number(4294967295)), Some(4294967295));
    assert_eq!(id_of(number(4294967296)), None);
    assert_eq!(id_of(number(-1)), None);
    assert_eq!(id_of(Value::Number(Number::from(u64::MAX))), None);
    assert_eq!(id_of(Value::Number(Number::from_f64(1.0).unwrap())), None);
    assert_eq!(id_of(handle_line("1.0").unwrap()), None);
    assert_eq!(id_of(handle_line("1e2").unwrap()), None);

    let namespace_of = |value: Value| match classify(&edit_with("namespace", value)) {
        Some(Event::Edit(edit)) => Some(edit.namespace),
        _ => None,
    };
    assert_eq!(namespace_of(number(-2)), Some(-2));
    assert_eq!(namespace_of(number(2147483647)), Some(2147483647));
    assert_eq!(namespace_of(number(-2147483648)), Some(-2147483648));
    assert_eq!(namespace_of(number(2147483648)), None);
    assert_eq!(namespace_of(number(-2147483649)), None);
    assert_eq!(namespace_of(Value::Number(Number::from(u64::MAX))), None);
    assert_eq!(
        namespace_of(Value::Number(Number::from_f64(0.5).unwrap())),
        None
    );
}

#[test]
fn absent_flags_count_as_false() {
    let flags_of = |value: &Value| match classify(value) {
        Some(Event::Edit(edit)) => Some((edit.is_minor(), edit.is_patrolled())),
        _ => None,
    };
    assert_eq!(flags_of(&edit_without("minor")), Some((false, false)));
    assert_eq!(flags_of(&edit_without("patrolled")), Some((true, false)));
    assert_eq!(
        flags_of(&edit_with("minor", Value::Null)),
        Some((false, false))
    );
    assert_eq!(
        flags_of(&edit_with("minor", Value::Bool(false))),
        Some((false, false))
    );
    assert_eq!(
        flags_of(&edit_with("patrolled", Value::Bool(true))),
        Some((true, true))
    );
}

#[test]
fn old_length_and_revision_are_optional() {
    let mut length = serde_json::Map::new();
    length.insert("new".to_string(), number(9));
    let mut revision = serde_json::Map::new();
    revision.insert("old".to_string(), Value::Null);
    revision.insert("new".to_string(), number(8));
    let mut map = object_of(EDIT);
    map.insert("length".to_string(), Value::Object(length));
    map.insert("revision".to_string(), Value::Object(revision));
    match classify(&Value::Object(map)) {
        Some(Event::Edit(edit)) => {
            assert_eq!(edit.length.old, None);
            assert_eq!(edit.length.new, 9);
            assert_eq!(edit.revision.old, None);
            assert_eq!(edit.revision.new, 8);
        }
        other => panic!("no edit: {:?}", other),
    }
    let mut map = serde_json::Map::new();
    map.insert("old".to_string(), number(1));
    assert!(classify(&edit_with("length", Value::Object(map))).is_none());
}

#[test]
fn a_nested_block_may_be_written_by_position() {
    let value = edit_with("length", Value::Array(vec![Value::Null, number(5)]));
    match classify(&value) {
        Some(Event::Edit(edit)) => {
            assert_eq!(edit.length.old, None);
            assert_eq!(edit.length.new, 5);
        }
        other => panic!("no edit: {:?}", other),
    }
    let value = edit_with("revision", Value::Array(vec![number(4), number(5)]));
    match classify(&value) {
        Some(Event::Edit(edit)) => {
            assert_eq!(edit.revision.old, Some(4));
            assert_eq!(edit.revision.new, 5);
        }
        other => panic!("no edit: {:?}", other),
    }
    let meta = Value::Array(vec![
        text("u"),
        text("r"),
        text("i"),
        text("d"),
        text("o"),
        text("s"),
        text("t"),
        number(1),
        number(2),
    ]);
    assert!(classify(&edit_with("meta", meta)).is_some());
    assert!(classify(&edit_with("length", Value::Array(vec![number(5)]))).is_none());
    assert!(classify(&edit_with(
        "length",
        Value::Array(vec![Value::Null, number(5), number(6)])
    ))
    .is_none());
    assert!(classify(&edit_with("length", Value::Array(vec![number(5), Value::Null]))).is_none());
    assert!(classify(&edit_with("meta", Value::Array(vec![]))).is_none());
}

#[test]
fn metadata_must_be_complete() {
    let meta_without = |key: &str| {
        let mut map = object_of(EDIT);
        let mut meta = match map.remove("meta") {
            Some(Value::Object(meta)) => meta,
            other => panic!("no metadata: {:?}", other),
        };
        meta.remove(key);
        map.insert("meta".to_string(), Value::Object(meta));
        Value::Object(map)
    };
    for key in [
        "uri",
        "request_id",
        "id",
        "dt",
        "domain",
        "stream",
        "topic",
        "partition",
        "offset",
    ] {
        assert!(classify(&meta_without(key)).is_none(), "{}", key);
    }
}

#[test]
fn unknown_members_are_ignored() {
    let value = edit_with("notify_url", text("https://example.org"));
    assert!(classify(&value).is_some());
}

fn samples() -> Vec<Value> {
    vec![
        Value::Null,
        Value::Bool(true),
        Value::Bool(false),
        number(0),
        number(1),
        number(-1),
        number(2147483647),
        number(2147483648),
        number(-2147483648),
        number(-2147483649),
        number(4294967295),
        number(4294967296),
        number(i64::MAX),
        number(i64::MIN),
        Value::Number(Number::from(u64::MAX)),
        Value::Number(Number::from_f64(0.0).unwrap()),
        Value::Number(Number::from_f64(1.0).unwrap()),
        Value::Number(Number::from_f64(-1.5).unwrap()),
        Value::Number(Number::from_f64(1e300).unwrap()),
        text(""),
        text("1"),
        text("true"),
        text("Foo Bar"),
        Value::Array(vec![]),
        Value::Array(vec![number(1)]),
        Value::Array(vec![number(1), number(2)]),
        Value::Array(vec![Value::Null, number(2)]),
        Value::Array(vec![number(1), Value::Null]),
        Value::Array(vec![number(-1), number(2)]),
        Value::Array(vec![text("1"), number(2)]),
        Value::Array(vec![number(1), number(2), number(3)]),
        Value::Object(serde_json::Map::new()),
    ]
}

#[test]
fn scalars_are_read_as_serde_json_reads_them() {
    for sample in samples() {
        let edit = |key: &str| match classify(&edit_with(key, sample.clone())) {
            Some(Event::Edit(edit)) => Some(edit),
            _ => None,
        };
        assert_eq!(
            edit("id").map(|e| e.id),
            serde_json::from_value::<u32>(sample.clone()).ok(),
            "{:?}",
            sample
        );
        assert_eq!(
            edit("timestamp").map(|e| e.timestamp),
            serde_json::from_value::<u32>(sample.clone()).ok(),
            "{:?}",
            sample
        );
        assert_eq!(
            edit("namespace").map(|e| e.namespace),
            serde_json::from_value::<i32>(sample.clone()).ok(),
            "{:?}",
            sample
        );
        assert_eq!(
            edit("bot").map(|e| e.bot),
            serde_json::from_value::<bool>(sample.clone()).ok(),
            "{:?}",
            sample
        );
        assert_eq!(
            edit("title").map(|e| e.title),
            serde_json::from_value::<String>(sample.clone()).ok(),
            "{:?}",
            sample
        );
        assert_eq!(
            edit("minor").map(|e| e.is_minor()),
            serde_json::from_value::<Option<bool>>(sample.clone())
                .ok()
                .map(|flag| flag.unwrap_or(false)),
            "{:?}",
            sample
        );
        assert_eq!(
            edit("patrolled").map(|e| e.is_patrolled()),
            serde_json::from_value::<Option<bool>>(sample.clone())
                .ok()
                .map(|flag| flag.unwrap_or(false)),
            "{:?}",
            sample
        );
    }
}

#[test]
fn blocks_by_position_are_read_as_serde_json_reads_tuples() {
    for sample in samples() {
        if sample.is_object() {
            continue;
        }
        let edit = |key: &str| match classify(&edit_with(key, sample.clone())) {
            Some(Event::Edit(edit)) => Some(edit),
            _ => None,
        };
        let pair = serde_json::from_value::<(Option<u32>, u32)>(sample.clone()).ok();
        assert_eq!(
            edit("length").map(|e| (e.length.old, e.length.new)),
            pair,
            "{:?}",
            sample
        );
        assert_eq!(
            edit("revision").map(|e| (e.revision.old, e.revision.new)),
            pair,
            "{:?}",
            sample
        );
    }
}

#[test]
fn metadata_by_position_is_read_as_serde_json_reads_a_tuple() {
    let texts = || (0..7).map(|i| text(&format!("t{}", i))).collect::<Vec<Value>>();
    let mut candidates = Vec::new();
    for tail in [
        vec![number(1), number(2)],
        vec![number(1)],
        vec![number(1), number(2), number(3)],
        vec![number(-1), number(2)],
        vec![number(1), text("2")],
        vec![number(1), Value::Null],
        vec![number(4294967296), number(2)],
    ] {
        let mut items = texts();
        items.extend(tail);
        candidates.push(Value::Array(items));
    }
    let mut items = texts();
    items[3] = number(3);
    items.extend(vec![number(1), number(2)]);
    candidates.push(Value::Array(items));
    for candidate in candidates {
        type Meta = (String, String, String, String, String, String, String, u32, u32);
        assert_eq!(
            classify(&edit_with("meta", candidate.clone())).is_some(),
            serde_json::from_value::<Meta>(candidate.clone()).is_ok(),
            "{:?}",
            candidate
        );
    }
}
