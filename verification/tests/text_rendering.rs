use boolog::SpanId;
use boolog::fields::Field;
use boolog::fields::FieldValue;
use boolog::fields::render_value;
use boolog::text::i64_to_dec;
use boolog::text::render_event_header;
use boolog::text::render_link;
use boolog::text::render_parent;
use boolog::text::render_record_header;
use boolog::text::render_span_header;
use boolog::text::str_has_newline;
use boolog::text::u64_to_dec;
use boolog::visit::render_field;
use boolog::visit::visit_fields;

fn field(name: &str, value: FieldValue) -> Field {
    Field { name: name.to_string(), value }
}

#[test]
fn unsigned_decimal_rendering() {
    assert_eq!(u64_to_dec(0), "0");
    assert_eq!(u64_to_dec(7), "7");
    assert_eq!(u64_to_dec(10), "10");
    assert_eq!(u64_to_dec(12345), "12345");
    assert_eq!(u64_to_dec(u64::MAX), "18446744073709551615");
}

#[test]
fn signed_decimal_rendering() {
    assert_eq!(i64_to_dec(0), "0");
    assert_eq!(i64_to_dec(42), "42");
    assert_eq!(i64_to_dec(-1), "-1");
    assert_eq!(i64_to_dec(-42), "-42");
    assert_eq!(i64_to_dec(i64::MAX), "9223372036854775807");
    assert_eq!(i64_to_dec(i64::MIN), "-9223372036854775808");
}

#[test]
fn value_rendering_by_variant() {
    assert_eq!(render_value(&FieldValue::Signed(-3)), "-3");
    assert_eq!(render_value(&FieldValue::Unsigned(3)), "3");
    assert_eq!(render_value(&FieldValue::Boolean(true)), "true");
    assert_eq!(render_value(&FieldValue::Boolean(false)), "false");
    assert_eq!(render_value(&FieldValue::Text("v1".to_string())), "\"v1\"");
    assert_eq!(render_value(&FieldValue::Float("2.5".to_string())), "2.5");
    assert_eq!(render_value(&FieldValue::Rendered("[1, 2]".to_string())), "[1, 2]");
}

#[test]
fn header_rendering() {
    let id = SpanId { raw: 3 };
    let parent = SpanId { raw: 1 };
    assert_eq!(render_parent(None), "none");
    assert_eq!(render_parent(Some(parent)), "1");
    assert_eq!(
        render_span_header(id, "my_span", Some(parent)),
        "new_span [3] my_span, parent: 1"
    );
    assert_eq!(render_span_header(id, "my_span", None), "new_span [3] my_span, parent: none");
    assert_eq!(render_record_header(id), "on_record [3]");
    assert_eq!(render_event_header("an event", Some(parent)), "event an event, parent: 1");
    assert_eq!(render_link(id, parent), "follows_from [3] -> [1]");
}

#[test]
fn visitation_order_is_declaration_order() {
    let fields = vec![
        field("a", FieldValue::Signed(1)),
        field("b", FieldValue::Text("x".to_string())),
    ];
    let lines = visit_fields(&fields);
    assert_eq!(lines, vec!["  a = 1".to_string(), "  b = \"x\"".to_string()]);
}

#[test]
fn sink_failure_is_confined_to_one_field() {
    let bad = field("broken", FieldValue::Rendered("a\nb".to_string()));
    assert!(render_field(&bad).is_err());

    let fields = vec![
        field("a", FieldValue::Signed(1)),
        field("broken", FieldValue::Rendered("a\nb".to_string())),
        field("c", FieldValue::Boolean(false)),
    ];
    let lines = visit_fields(&fields);
    assert_eq!(lines, vec!["  a = 1".to_string(), "  c = false".to_string()]);
}

#[test]
fn newline_scan() {
    assert!(!str_has_newline("plain"));
    assert!(str_has_newline("a\nb"));
    assert!(!str_has_newline(""));
}
