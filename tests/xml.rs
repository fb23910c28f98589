use fritz_logger::xml::{child_indices, get_attrib, get_child, get_child_text, same_text, XmlDoc, XmlError, XmlNode};

fn node(parent: Option<usize>, name: &str, text: Option<&str>, attrs: &[(&str, &str)]) -> XmlNode {
    XmlNode {
        parent,
        element: !name.is_empty(),
        name: name.to_string(),
        text: text.map(|t| t.to_string()),
        attributes: attrs.iter().map(|(k, v)| (k.to_string(), v.to_string())).collect(),
    }
}

fn doc() -> XmlDoc {
    XmlDoc {
        nodes: vec![
            node(None, "", None, &[]),
            node(Some(0), "a", None, &[("k", "v"), ("k", "w")]),
            node(Some(1), "b", Some("one"), &[]),
            node(Some(1), "", Some("one"), &[]),
            node(Some(1), "b", Some("two"), &[]),
            node(Some(1), "c", None, &[]),
        ],
    }
}

#[test]
fn first_named_child_is_found() {
    let d = doc();
    assert_eq!(get_child(&d, 1, "b").ok(), Some(2));
    assert_eq!(get_child(&d, 0, "a").ok(), Some(1));
    assert!(matches!(get_child(&d, 0, "b"), Err(XmlError::MissingChild(ref n)) if n == "b"));
}

#[test]
fn child_text_and_attributes() {
    let d = doc();
    assert_eq!(get_child_text(&d, 1, "b").ok().unwrap(), "one");
    assert!(matches!(get_child_text(&d, 1, "c"), Err(XmlError::MissingText(ref n)) if n == "c"));
    assert_eq!(get_attrib(&d, 1, "k").ok().unwrap(), "v");
    assert!(matches!(get_attrib(&d, 1, "z"), Err(XmlError::MissingAttribute(ref n)) if n == "z"));
}

#[test]
fn children_in_document_order() {
    assert_eq!(child_indices(&doc(), 1), vec![2, 3, 4, 5]);
    assert!(same_text("äb", "äb"));
    assert!(!same_text("ab", "abc"));
}
