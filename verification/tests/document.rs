use iced_style_config::document::document;
use iced_style_config::error::{Error, ErrorKind};
use iced_style_config::node::Node;

fn table(entries: Vec<(&str, Node)>) -> Node {
    Node::Table(entries.into_iter().map(|(k, v)| (k.to_string(), v)).collect())
}

#[test]
fn every_kind_of_value_is_copied() {
    let text = r##"
name = "Väinö"
count = -7
ratio = 0.75
on = false
when = 1979-05-27T07:32:00Z
list = [1, "two", 3.0]

[inner]
deep = { x = 1 }
"##;
    let doc = document(text.as_bytes()).unwrap();
    assert_eq!(doc.get("name"), Some(&Node::Text("Väinö".to_string())));
    assert_eq!(doc.get("count"), Some(&Node::Integer(-7)));
    assert_eq!(doc.get("ratio"), Some(&Node::Real(0.75f64.to_bits())));
    assert_eq!(doc.get("on"), Some(&Node::Boolean(false)));
    assert_eq!(doc.get("when"), Some(&Node::Moment("1979-05-27T07:32:00Z".to_string())));
    assert_eq!(
        doc.get("list"),
        Some(&Node::List(vec![
            Node::Integer(1),
            Node::Text("two".to_string()),
            Node::Real(3.0f64.to_bits())
        ]))
    );
    assert_eq!(
        doc.get("inner"),
        Some(&table(vec![("deep", table(vec![("x", Node::Integer(1))]))]))
    );
    assert_eq!(doc.get("missing"), None);
    assert_eq!(doc.get("inner").unwrap().get("deep").unwrap().get("x"), Some(&Node::Integer(1)));
}

#[test]
fn the_empty_document_is_an_empty_table() {
    assert_eq!(document(b"").unwrap(), Node::Table(vec![]));
    assert_eq!(document(b"# only a comment\n").unwrap(), Node::Table(vec![]));
}

#[test]
fn entries_of_a_table_come_in_the_order_of_their_keys() {
    let doc = document(b"b = 2\na = 1\nc = 3\n").unwrap();
    assert_eq!(
        doc,
        table(vec![("a", Node::Integer(1)), ("b", Node::Integer(2)), ("c", Node::Integer(3))])
    );
}

#[test]
fn what_is_no_document_is_an_error_of_syntax() {
    for text in ["a = ", "[x", "a = 1\na = 2\n", "a = [1, ", "\"a\" \"b\""] {
        let e = document(text.as_bytes()).unwrap_err();
        assert!(matches!(e, Error::Syntax(_)));
        assert_eq!(e.kind(), ErrorKind::Format);
    }
    assert!(matches!(document(&[0x61, 0x3d, 0xff]).unwrap_err(), Error::Syntax(_)));
}

#[test]
fn accessors_of_a_node() {
    let node = Node::Text("a".to_string());
    assert_eq!(node.as_text(), Some("a"));
    assert_eq!(node.as_integer(), None);
    assert!(node.as_list().is_none());
    assert!(node.as_table().is_none());
    assert_eq!(node.get("a"), None);
    assert_eq!(Node::Integer(3).as_integer(), Some(3));
    assert_eq!(Node::Integer(3).as_text(), None);
    let list = Node::List(vec![Node::Integer(1)]);
    assert_eq!(list.as_list().unwrap().len(), 1);
    let t = table(vec![("k", Node::Integer(1)), ("k", Node::Integer(2)), ("l", Node::Integer(3))]);
    assert_eq!(t.as_table().unwrap().len(), 3);
    assert_eq!(t.get("k"), Some(&Node::Integer(1)));
    assert_eq!(t.get("l"), Some(&Node::Integer(3)));
    assert_eq!(t.get("K"), None);
}
