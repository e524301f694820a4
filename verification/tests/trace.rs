use mini_crater::trace::Trace;

fn field<'a>(trace: &'a Trace, name: &str) -> Option<&'a str> {
    trace.fields.iter().find(|f| f.name == name).map(|f| f.value.as_str())
}

#[test]
fn a_new_report_is_empty() {
    let trace = Trace::new();
    assert_eq!(trace.message, "");
    assert!(trace.fields.is_empty());
}

#[test]
fn the_message_stands_apart() {
    let mut trace = Trace::new();
    trace.record("message".to_owned(), "first".to_owned());
    trace.record("message".to_owned(), "second".to_owned());
    assert_eq!(trace.message, "second");
    assert!(trace.fields.is_empty());
}

#[test]
fn a_later_value_replaces_an_earlier_one() {
    let mut trace = Trace::new();
    trace.record("a".to_owned(), "1".to_owned());
    trace.record("b".to_owned(), "2".to_owned());
    trace.record("a".to_owned(), "3".to_owned());
    assert_eq!(trace.message, "");
    assert_eq!(trace.fields.len(), 2);
    assert_eq!(field(&trace, "a"), Some("3"));
    assert_eq!(field(&trace, "b"), Some("2"));
    assert_eq!(field(&trace, "c"), None);
}
