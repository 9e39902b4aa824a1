use plug_gui::document::{DocumentMessage, DocumentProxy, HeadAction, HeadTally};
use std::collections::VecDeque;

type Parts = (String, Vec<(String, String)>, Option<String>);

fn parts(message: DocumentMessage) -> Parts {
    let DocumentMessage::CreateHeadElement { name, attributes, contents } = message;
    (name, attributes, contents)
}

fn proxy() -> DocumentProxy<u8> {
    DocumentProxy::new(1)
}

#[test]
fn attributes_are_copied_in_order() {
    let attributes = [("rel", "icon".to_string()), ("href", "a.png".to_string())];
    let (name, copied, contents) = parts(proxy().create_link(&attributes));
    assert_eq!(name, "link");
    assert_eq!(
        copied,
        vec![
            ("rel".to_string(), "icon".to_string()),
            ("href".to_string(), "a.png".to_string())
        ]
    );
    assert_eq!(contents, None);
}

#[test]
fn a_title_is_an_element_without_attributes() {
    let (name, attributes, contents) = parts(proxy().set_title("Gain".to_string()));
    assert_eq!(name, "title");
    assert!(attributes.is_empty());
    assert_eq!(contents.as_deref(), Some("Gain"));
}

#[test]
fn each_operation_creates_its_element() {
    let attributes = [("type", "x".to_string())];
    let (name, _, contents) = parts(proxy().create_meta(&attributes));
    assert_eq!((name.as_str(), contents), ("meta", None));
    let (name, _, contents) = parts(proxy().create_script(&attributes, Some("1".to_string())));
    assert_eq!((name.as_str(), contents.as_deref()), ("script", Some("1")));
    let (name, attributes, contents) = parts(proxy().create_style(&attributes, None));
    assert_eq!((name.as_str(), contents), ("style", None));
    assert_eq!(attributes, vec![("type".to_string(), "x".to_string())]);
    let (name, attributes, _) = parts(proxy().create_head_element("base", &[], None));
    assert_eq!(name, "base");
    assert!(attributes.is_empty());
}

#[test]
fn head_components_are_created() {
    assert!(proxy().create_head_component());
    assert_eq!(proxy().sender, 1);
}

#[test]
fn style_bytes_are_tallied() {
    let mut tally = HeadTally::new();
    assert!(tally.is_empty());
    tally.record(&proxy().create_style(&[], Some("a{}".to_string())));
    // Bytes, not characters.
    tally.record(&proxy().create_style(&[], Some("é".to_string())));
    tally.record(&proxy().create_style(&[], None));
    tally.record(&proxy().create_script(&[], Some("alert".to_string())));
    assert_eq!(tally, HeadTally { elements: 4, style_bytes: 5 });
    assert!(!tally.is_empty());
}

#[test]
fn scripts_are_not_run() {
    assert!(proxy().eval("1 + 1".to_string()).is_none());
}

#[test]
fn queued_elements_are_created_in_order() {
    let mut queue = VecDeque::from(vec![
        proxy().create_style(&[], Some("a".to_string())),
        proxy().create_meta(&[]),
        proxy().set_title("t".to_string()),
    ]);
    let mut tally = HeadTally::new();
    let mut created = vec![];
    while let HeadAction::Create(message) = tally.received(queue.pop_front()) {
        created.push(parts(message).0);
    }
    assert_eq!(created, vec!["style", "meta", "title"]);
    assert!(queue.is_empty());
    assert_eq!(tally, HeadTally { elements: 3, style_bytes: 1 });
}
