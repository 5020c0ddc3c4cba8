use boolog::BooLog;
use boolog::SpanId;
use boolog::errors::LayerError;
use boolog::fields::Field;
use boolog::fields::FieldValue;
use boolog::fields::field_value_of;
use boolog::ids::Level;
use boolog::layer::EventData;
use boolog::layer::SpanAttributes;
use boolog::resolve::resolve_parent;

fn field(name: &str, value: FieldValue) -> Field {
    Field { name: name.to_string(), value }
}

fn attrs(name: &str, parent: Option<SpanId>, fields: Vec<Field>) -> SpanAttributes {
    SpanAttributes { name: name.to_string(), level: Level::Info, parent, fields }
}

fn event(name: &str, parent: Option<SpanId>, fields: Vec<Field>) -> EventData {
    EventData { name: name.to_string(), level: Level::Info, parent, fields }
}

#[test]
fn explicit_parent_wins_over_thread_context() {
    let p = SpanId { raw: 9 };
    let active = SpanId { raw: 4 };
    assert_eq!(resolve_parent(Some(p), Some(active)), Some(p));
    assert_eq!(resolve_parent(Some(p), None), Some(p));
}

#[test]
fn contextual_parent_used_without_explicit() {
    let active = SpanId { raw: 4 };
    assert_eq!(resolve_parent(None, Some(active)), Some(active));
    assert_eq!(resolve_parent(None, None), None);
}

#[test]
fn nested_spans_and_events_follow_the_active_span() {
    let mut log = BooLog::new();
    let id1 = SpanId { raw: 1 };
    let id2 = SpanId { raw: 2 };

    let lines = log
        .new_span(
            attrs(
                "my_span",
                None,
                vec![field("foo", FieldValue::Signed(3)), field("bar", FieldValue::Signed(0))],
            ),
            id1,
            0,
        )
        .unwrap();
    assert_eq!(lines[0], "new_span [1] my_span, parent: none");
    assert_eq!(lines[1], "  foo = 3");
    assert_eq!(lines[2], "  bar = 0");

    log.enter(0, id1);
    let lines = log
        .new_span(
            attrs("my_span2", None, vec![field("baz", FieldValue::Signed(3))]),
            id2,
            0,
        )
        .unwrap();
    assert_eq!(lines[0], "new_span [2] my_span2, parent: 1");

    log.enter(0, id2);
    let lines = log.on_event(
        &event("another event", None, vec![field("answer", FieldValue::Signed(42))]),
        0,
    );
    assert_eq!(lines[0], "event another event, parent: 2");
    assert_eq!(lines[1], "  answer = 42");

    log.exit(0);
    let lines = log.on_event(
        &event("an event", None, vec![field("answer", FieldValue::Signed(42))]),
        0,
    );
    assert_eq!(lines[0], "event an event, parent: 1");
}

#[test]
fn event_with_no_span_ever_entered_is_a_root() {
    let log = BooLog::new();
    let lines = log.on_event(&event("span-less event?", None, vec![]), 0);
    assert_eq!(lines, vec!["event span-less event?, parent: none".to_string()]);
}

#[test]
fn update_never_alters_name_or_parent() {
    let mut log = BooLog::new();
    let id = SpanId { raw: 1 };
    log.new_span(attrs("s", None, vec![]), id, 0).unwrap();
    let lines = log.on_record(id, vec![field("bar", FieldValue::Text("v1".to_string()))]);
    assert_eq!(lines[0], "on_record [1]");
    assert_eq!(lines[1], "  bar = \"v1\"");

    let entry = log.lookup(id).expect("span must still be there");
    assert_eq!(entry.name, "s");
    assert_eq!(entry.parent, None);
    match field_value_of(&entry.fields, "bar") {
        Some(FieldValue::Text(s)) => assert_eq!(s, "v1"),
        other => panic!("unexpected field value: {:?}", other.is_some()),
    }
}

#[test]
fn last_recorded_value_wins() {
    let mut log = BooLog::new();
    let id = SpanId { raw: 7 };
    log.new_span(
        attrs("s", None, vec![field("bar", FieldValue::Signed(1))]),
        id,
        0,
    )
    .unwrap();
    log.on_record(id, vec![field("bar", FieldValue::Text("v2".to_string()))]);
    let entry = log.lookup(id).unwrap();
    match field_value_of(&entry.fields, "bar") {
        Some(FieldValue::Text(s)) => assert_eq!(s, "v2"),
        _ => panic!("the later recording must win"),
    }
    assert!(field_value_of(&entry.fields, "missing").is_none());
}

#[test]
fn two_threads_make_two_roots() {
    let mut log = BooLog::new();
    let id1 = SpanId { raw: 1 };
    let id2 = SpanId { raw: 2 };
    let lines1 = log.new_span(attrs("a", None, vec![]), id1, 1).unwrap();
    let lines2 = log.new_span(attrs("b", None, vec![]), id2, 2).unwrap();
    assert_eq!(lines1[0], "new_span [1] a, parent: none");
    assert_eq!(lines2[0], "new_span [2] b, parent: none");
    assert_eq!(log.lookup(id1).unwrap().parent, None);
    assert_eq!(log.lookup(id2).unwrap().parent, None);
}

#[test]
fn entering_on_one_thread_leaves_the_other_alone() {
    let mut log = BooLog::new();
    let id1 = SpanId { raw: 1 };
    log.new_span(attrs("a", None, vec![]), id1, 1).unwrap();
    log.enter(1, id1);
    assert_eq!(log.current_span(1), Some(id1));
    assert_eq!(log.current_span(2), None);
    let lines = log.on_event(&event("e", None, vec![]), 2);
    assert_eq!(lines[0], "event e, parent: none");
}

#[test]
fn explicit_parent_crosses_threads() {
    let mut log = BooLog::new();
    let id1 = SpanId { raw: 1 };
    let id2 = SpanId { raw: 2 };
    log.new_span(attrs("a", None, vec![]), id1, 1).unwrap();
    log.enter(1, id1);
    // created on thread 2, attached to thread 1's span deliberately
    log.new_span(attrs("b", Some(id1), vec![]), id2, 2).unwrap();
    assert_eq!(log.lookup(id2).unwrap().parent, Some(id1));
}

#[test]
fn duplicate_creation_is_a_registry_inconsistency() {
    let mut log = BooLog::new();
    let id = SpanId { raw: 1 };
    log.new_span(attrs("a", None, vec![]), id, 0).unwrap();
    let r = log.new_span(attrs("b", None, vec![]), id, 0);
    assert_eq!(r, Err(LayerError::RegistryInconsistency));
    // nothing was overwritten
    assert_eq!(log.lookup(id).unwrap().name, "a");
}

#[test]
fn causal_link_changes_no_parent_and_no_context() {
    let mut log = BooLog::new();
    let x = SpanId { raw: 1 };
    let y = SpanId { raw: 2 };
    log.new_span(attrs("x", None, vec![]), x, 0).unwrap();
    log.new_span(attrs("y", None, vec![]), y, 0).unwrap();
    log.enter(0, x);

    let lines = log.on_follows_from(y, x).unwrap();
    assert_eq!(lines, vec!["follows_from [2] -> [1]".to_string()]);

    // parent edges and context resolution are untouched
    assert_eq!(log.lookup(x).unwrap().parent, None);
    assert_eq!(log.lookup(y).unwrap().parent, None);
    assert_eq!(log.current_span(0), Some(x));
    let e = log.on_event(&event("e", None, vec![]), 0);
    assert_eq!(e[0], "event e, parent: 1");
}

#[test]
fn link_without_support_is_recoverable() {
    let mut log = BooLog::without_link_support();
    let x = SpanId { raw: 1 };
    let y = SpanId { raw: 2 };
    log.new_span(attrs("x", None, vec![]), x, 0).unwrap();
    log.new_span(attrs("y", None, vec![]), y, 0).unwrap();
    let r = log.on_follows_from(x, y);
    assert_eq!(r, Err(LayerError::UnsupportedOperation));
    // the producer goes on; later hooks still work
    let lines = log.on_record(x, vec![field("k", FieldValue::Boolean(true))]);
    assert_eq!(lines[1], "  k = true");
}

#[test]
fn exit_on_empty_stack_is_a_no_op() {
    let mut log = BooLog::new();
    log.exit(0);
    assert_eq!(log.current_span(0), None);
    let id = SpanId { raw: 3 };
    log.new_span(attrs("s", None, vec![]), id, 0).unwrap();
    log.enter(0, id);
    log.exit(0);
    log.exit(0);
    assert_eq!(log.current_span(0), None);
}

#[test]
fn observing_an_event_touches_no_registry_entry() {
    let mut log = BooLog::new();
    let id = SpanId { raw: 1 };
    log.new_span(
        attrs("s", None, vec![field("foo", FieldValue::Signed(3))]),
        id,
        0,
    )
    .unwrap();
    log.enter(0, id);
    log.on_event(&event("e", None, vec![field("answer", FieldValue::Signed(42))]), 0);
    // the span's entry and the thread's context are exactly as before
    let entry = log.lookup(id).unwrap();
    assert_eq!(entry.name, "s");
    assert_eq!(entry.parent, None);
    assert_eq!(entry.fields.len(), 1);
    assert_eq!(log.current_span(0), Some(id));
}

#[test]
fn unknown_span_update_is_a_silent_no_op() {
    let mut log = BooLog::new();
    let id = SpanId { raw: 5 };
    let lines = log.on_record(id, vec![field("a", FieldValue::Signed(1))]);
    // fields are still emitted, nothing is stored
    assert_eq!(lines[0], "on_record [5]");
    assert_eq!(lines[1], "  a = 1");
    assert!(log.lookup(id).is_none());
}
