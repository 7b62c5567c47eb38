use otex::logging::{create_log_record, decimal_text, log_level, render_body};
use otex::{anykvset, kvset, Key, KeyValue, Level, Severity, Value};

#[test]
fn from_impl() {
    let test = Value::Bool(false);
    let test_key = Key::new("test");
    assert_eq!(test, Value::Bool(false));
    assert_eq!(test_key.as_str(), "test");

    let mut fields = serde_json::Map::new();
    fields.insert("inner".to_string(), serde_json::Value::Bool(true));
    let value = serde_json::Value::Object(fields);

    let value = Value::json(serde_json::to_string(&value).expect("failed to serialize"));
    assert_eq!(value, Value::String("{\"inner\":true}".to_string()));
}

#[test]
fn debug_values_are_text() {
    assert_eq!(Value::debug(&Some(5)), Value::String("Some(5)".to_string()));
    assert_eq!(Value::debug(&"a\"b"), Value::String("\"a\\\"b\"".to_string()));
}

#[test]
fn keys_from_segments() {
    assert_eq!(Key::from_segments(&[]).as_str(), "");
    assert_eq!(Key::from_segments(&["alone"]).as_str(), "alone");
    assert_eq!(Key::from_segments(&["work_order", "request_id"]).as_str(), "work_order.request_id");
    assert_eq!(Key::from_segments(&["a", "", "c"]).as_str(), "a..c");
    assert_eq!(Key::new("work_order.request_id"), Key::from_segments(&["work_order", "request_id"]));
}

#[test]
fn lists_keep_order_and_duplicates() {
    let list = kvset(&[
        ("k", Value::Integer(1)),
        ("other", Value::Bool(true)),
        ("k", Value::Integer(2)),
    ]);
    assert_eq!(
        list,
        [
            KeyValue::new("k", Value::Integer(1)),
            KeyValue::new("other", Value::Bool(true)),
            KeyValue::new("k", Value::Integer(2)),
        ]
    );
    assert!(kvset(&[]).is_empty());
    let pairs = anykvset(&[("k", Value::Integer(1)), ("k", Value::Integer(1))]);
    assert_eq!(pairs.len(), 2);
    assert_eq!(pairs[0], pairs[1]);
}

#[test]
fn decimal_text_of_integers() {
    assert_eq!(decimal_text(0), "0");
    assert_eq!(decimal_text(7), "7");
    assert_eq!(decimal_text(10), "10");
    assert_eq!(decimal_text(-1), "-1");
    assert_eq!(decimal_text(1234567890), "1234567890");
    assert_eq!(decimal_text(i64::MAX), "9223372036854775807");
    assert_eq!(decimal_text(i64::MIN), "-9223372036854775808");
}

#[test]
fn bodies_as_text() {
    assert_eq!(render_body(&Value::Integer(-42)), Some("-42".to_string()));
    assert_eq!(render_body(&Value::Bool(true)), Some("true".to_string()));
    assert_eq!(render_body(&Value::Bool(false)), Some("false".to_string()));
    assert_eq!(render_body(&Value::string("as it is")), Some("as it is".to_string()));
    assert_eq!(render_body(&Value::Float(1.5f64.to_bits())), None);
}

#[test]
fn levels_of_severities() {
    let all = [
        (Severity::Trace, 1, Level::Trace),
        (Severity::Trace2, 2, Level::Trace),
        (Severity::Trace3, 3, Level::Trace),
        (Severity::Trace4, 4, Level::Trace),
        (Severity::Debug, 5, Level::Debug),
        (Severity::Debug2, 6, Level::Debug),
        (Severity::Debug3, 7, Level::Debug),
        (Severity::Debug4, 8, Level::Debug),
        (Severity::Info, 9, Level::Info),
        (Severity::Info2, 10, Level::Info),
        (Severity::Info3, 11, Level::Info),
        (Severity::Info4, 12, Level::Info),
        (Severity::Warn, 13, Level::Warn),
        (Severity::Warn2, 14, Level::Warn),
        (Severity::Warn3, 15, Level::Warn),
        (Severity::Warn4, 16, Level::Warn),
        (Severity::Error, 17, Level::Error),
        (Severity::Error2, 18, Level::Error),
        (Severity::Error3, 19, Level::Error),
        (Severity::Error4, 20, Level::Error),
        (Severity::Fatal, 21, Level::Error),
        (Severity::Fatal2, 22, Level::Error),
        (Severity::Fatal3, 23, Level::Error),
        (Severity::Fatal4, 24, Level::Error),
    ];
    for (severity, number, level) in all {
        assert_eq!(severity.number(), number);
        assert_eq!(log_level(severity), level);
    }
}

#[test]
fn a_record_without_a_body_has_no_line() {
    let attributes = anykvset(&[("k", Value::Integer(1))]);
    let (record, line) = create_log_record(Severity::Fatal2, "here", Some("name"), None, &attributes);
    assert_eq!(record.severity, Severity::Fatal2);
    assert_eq!(record.event_name.as_deref(), Some("name"));
    assert_eq!(record.body, None);
    assert_eq!(record.attributes, attributes);
    assert!(line.is_none());
}

#[test]
fn a_record_with_a_body_has_a_line() {
    let attributes = anykvset(&[("k", Value::Integer(1)), ("k", Value::Integer(2))]);
    let (record, line) =
        create_log_record(Severity::Fatal, "here", None, Some(Value::Integer(-7)), &attributes);
    assert_eq!(record.event_name, None);
    assert_eq!(record.body, Some(Value::Integer(-7)));
    let line = line.unwrap();
    assert_eq!(line.level, Level::Error);
    assert_eq!(line.target, "here");
    assert_eq!(line.message.as_deref(), Some("-7"));
    assert_eq!(line.body, Value::Integer(-7));
    assert_eq!(line.attributes, attributes);

    let (_, line) = create_log_record(
        Severity::Info,
        "here",
        None,
        Some(Value::Float(2.5f64.to_bits())),
        &[],
    );
    let line = line.unwrap();
    assert_eq!(line.message, None);
    assert_eq!(line.body, Value::Float(2.5f64.to_bits()));
}

#[test]
fn test_info() {
    let mut otex = otex::init(None);

    let (record, line) = otex::info_log("keyvalue", Some("test log"), Value::string("test!"), &[]);
    assert_eq!(record.event_name.as_deref(), Some("test log"));
    assert_eq!(line.unwrap().message.as_deref(), Some("test!"));

    let attributes = anykvset(&[("key", Value::Integer(1))]);
    let (record, _) =
        otex::info_log("keyvalue", Some("test log"), Value::string("test!"), &attributes);
    assert_eq!(record.attributes[0].1, Value::Integer(1));

    let (record, _) = otex::info_log("keyvalue", None, Value::string("test!"), &[]);
    assert_eq!(record.event_name, None);
    assert_eq!(record.severity, Severity::Info);

    while otex.shutdown(None).is_some() {}
}

#[test]
fn test_log_provider() {
    let mut otex = otex::init(None);
    let mut stack = otex::ContextStack::new();

    let attributes = kvset(&[("value", Value::string("attach"))]);
    let span = otex::new_span_with_ids(
        "test",
        otex::SpanKind::Internal,
        &attributes,
        stack.current(),
        otex::TraceId::from_bytes([1; 16]),
        otex::SpanId::from_bytes([1; 8]),
        0,
    );
    let guard = stack.attach(span);

    let attributes = kvset(&[("attr", Value::string("name"))]);
    otex::new_event(&mut stack, "test", &attributes, 1);
    let attributes = anykvset(&[("test_key", Value::string("hello"))]);
    let (record, line) = otex::log(
        "keyvalue",
        Some("test log"),
        Severity::Error,
        Value::string("error!"),
        &attributes,
    );
    assert_eq!(record.severity, Severity::Error);
    assert_eq!(record.attributes[0].0.as_str(), "test_key");
    assert_eq!(line.unwrap().message.as_deref(), Some("error!"));

    let span = stack.detach(guard).unwrap();
    assert_eq!(span.span().unwrap().events()[0].name(), "test");
    while otex.shutdown(None).is_some() {}
    assert!(otex.is_shut_down());
}
