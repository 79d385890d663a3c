use iced_style_config::color::ColorMap;
use iced_style_config::node::Node;
use iced_style_config::sheets::{LookupError, Sheet, SheetMap};
use iced_style_config::widget::{button, text};
use iced_style_config::Theme;

#[test]
fn a_map_without_variants_has_its_default() {
    let theme = Theme::from_str("").unwrap();
    assert_eq!(*theme.button().get_default(), button::StyleSheet::base());
    assert_eq!(theme.button().get("default"), Ok(&button::StyleSheet::base()));
    assert!(theme.button().contains("default"));
}

#[test]
fn a_name_that_is_absent_is_a_lookup_error() {
    let theme = Theme::from_str("").unwrap();
    assert_eq!(
        theme.button().get("nonexistent"),
        Err(LookupError { name: "nonexistent".to_string() })
    );
    assert!(!theme.button().contains("nonexistent"));
    assert!(theme.text().get("Default").is_err());
    assert!(theme.text().get("").is_err());
}

#[test]
fn a_new_map_holds_the_default_alone() {
    let map: SheetMap<text::StyleSheet> = SheetMap::new();
    assert_eq!(*map.get_default(), text::StyleSheet::base());
    assert!(map.get("other").is_err());
}

#[test]
fn named_variants_stand_beside_the_default() {
    let doc = "[text.title]\nsize = 30\n[text.note]\nsize = 10\n";
    let theme = Theme::from_str(doc).unwrap();
    assert_eq!(theme.text().get("title").unwrap().size, Some(30));
    assert_eq!(theme.text().get("note").unwrap().size, Some(10));
    assert_eq!(theme.text().get_default().size, None);
    assert!(theme.text().get("Title").is_err());
}

#[test]
fn a_default_of_the_document_is_kept() {
    let doc = "[text.default]\nsize = 12\n";
    let theme = Theme::from_str(doc).unwrap();
    assert_eq!(theme.text().get_default().size, Some(12));
    assert_eq!(theme.text().get("default").unwrap().size, Some(12));
}

#[test]
fn a_section_left_out_and_a_section_that_is_no_table() {
    let local = ColorMap::new();
    let map = SheetMap::<text::StyleSheet>::decode(None, &local).unwrap();
    assert_eq!(*map.get_default(), text::StyleSheet::base());
    assert!(SheetMap::<text::StyleSheet>::decode(Some(&Node::Integer(1)), &local).is_err());
    let empty = Node::Table(vec![]);
    let map = SheetMap::<text::StyleSheet>::decode(Some(&empty), &local).unwrap();
    assert_eq!(*map.get_default(), text::StyleSheet::base());
}

#[test]
fn a_later_variant_replaces_an_earlier_one_of_its_name() {
    let local = ColorMap::new();
    let sheet = |size: i64| Node::Table(vec![("size".to_string(), Node::Integer(size))]);
    let section = Node::Table(vec![
        ("a".to_string(), sheet(1)),
        ("b".to_string(), sheet(2)),
        ("a".to_string(), sheet(3)),
    ]);
    let map = SheetMap::<text::StyleSheet>::decode(Some(&section), &local).unwrap();
    assert_eq!(map.get("a").unwrap().size, Some(3));
    assert_eq!(map.get("b").unwrap().size, Some(2));
}

#[test]
fn the_first_variant_at_fault_is_reported() {
    let local = ColorMap::new();
    let sheet =
        |name: &str| Node::Table(vec![("color".to_string(), Node::Text(name.to_string()))]);
    let section = Node::Table(vec![
        ("a".to_string(), sheet("nope_a")),
        ("b".to_string(), sheet("nope_b")),
    ]);
    let e = SheetMap::<text::StyleSheet>::decode(Some(&section), &local).unwrap_err();
    assert_eq!(e.message(), "cannot find color alias 'nope_a'");
}

#[test]
fn a_sheet_of_an_empty_table_is_the_baseline() {
    let local = ColorMap::new();
    let empty = Node::Table(vec![]);
    assert_eq!(button::StyleSheet::decode(&empty, &local).unwrap(), button::StyleSheet::base());
    assert_eq!(text::StyleSheet::decode(&empty, &local).unwrap(), text::StyleSheet::base());
}

#[test]
fn a_map_stands_for_its_default_sheet() {
    let doc = "[text.default]\nsize = 12\n[text.title]\nsize = 30\n";
    let theme = Theme::from_str(doc).unwrap();
    assert_eq!(theme.text().size, Some(12));
    assert_eq!(theme.text().color, None);
    assert_eq!(theme.button().padding, None);
    assert_eq!(theme.button().style, button::StyleSheet::base().style);
}
