use embed_creator::artifact::TITLE_LIMIT;
use embed_creator::form::{collect_form, form, FieldStyle, FieldValue, FormEvent};

fn field(id: &str, value: Option<&str>) -> FieldValue {
    FieldValue { id: id.to_string(), value: value.map(|v| v.to_string()) }
}

#[test]
fn form_asks_for_title_and_description() {
    let f = form();
    assert_eq!(f.heading, "Embed Wizard");
    assert_eq!(f.fields.len(), 2);
    assert_eq!(f.fields[0].id, "title");
    assert_eq!(f.fields[0].label, "Title");
    assert_eq!(f.fields[0].style, FieldStyle::SingleLine);
    assert!(!f.fields[0].required);
    assert_eq!(f.fields[0].max_length, Some(256));
    assert_eq!(TITLE_LIMIT, 256);
    assert_eq!(f.fields[1].id, "description");
    assert_eq!(f.fields[1].label, "Description");
    assert_eq!(f.fields[1].style, FieldStyle::Paragraph);
    assert!(!f.fields[1].required);
    assert_eq!(f.fields[1].max_length, None);
}

#[test]
fn empty_fields_count_as_absent() {
    let a = collect_form(FormEvent::Submitted(vec![field("title", Some("")), field("description", None)]))
        .unwrap();
    assert_eq!(a.title, None);
    assert_eq!(a.description, None);
    assert_eq!(a.url, None);
    assert_eq!(a.color, None);
}

#[test]
fn last_occurrence_wins_and_others_are_ignored() {
    let a = collect_form(FormEvent::Submitted(vec![
        field("title", Some("first")),
        field("other", Some("ignored")),
        field("description", Some("kept")),
        field("title", Some("second")),
    ]))
    .unwrap();
    assert_eq!(a.title, Some("second".to_string()));
    assert_eq!(a.description, Some("kept".to_string()));
    let b = collect_form(FormEvent::Submitted(vec![field("title", Some("gone")), field("title", None)]))
        .unwrap();
    assert_eq!(b.title, None);
}
