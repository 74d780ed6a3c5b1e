use prism::ast::Span;
use prism::diagnostics::{column_does_not_exist, table_does_not_exist, Label, LabelStyle, Severity};

#[test]
fn table_message_is_rendered_from_its_template() {
    let d = table_does_not_exist("http_requests2");
    assert_eq!(d.severity, Severity::Error);
    assert_eq!(d.code.as_deref(), Some("E0001"));
    assert_eq!(d.message, "table `http_requests2` does not exist");
    assert!(d.labels.is_empty());
    assert!(d.notes.is_empty());
}

#[test]
fn column_message_names_column_and_table() {
    let d = column_does_not_exist("something", "http_requests");
    assert_eq!(d.message, "column `something` does not exist on table `http_requests`");
    assert_eq!(d.code.as_deref(), Some("E0001"));
}

#[test]
fn values_with_braces_are_copied_verbatim() {
    let d = table_does_not_exist("{x}");
    assert_eq!(d.message, "table `{x}` does not exist");
}

#[test]
fn labels_are_appended() {
    let d = table_does_not_exist("t")
        .with_labels(vec![Label::primary(1, Span::new(0, 1))])
        .with_labels(vec![Label::primary(2, Span::new(3, 4))]);
    assert_eq!(d.labels.len(), 2);
    assert_eq!(d.labels[0].style, LabelStyle::Primary);
    assert_eq!(d.labels[0].file_id, 1);
    assert_eq!(d.labels[1].range, Span { start: 3, end: 4 });
}
