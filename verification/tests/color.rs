use iced_style_config::color::{builtin_color, decode_color, resolve, Color, ColorMap};
use iced_style_config::error::{Error, ErrorKind};
use iced_style_config::node::Node;
use iced_style_config::number::Scalar;
use iced_style_config::strings::parse_hex;

fn text(s: &str) -> Node {
    Node::Text(s.to_string())
}

fn table(entries: Vec<(&str, Node)>) -> Node {
    Node::Table(entries.into_iter().map(|(k, v)| (k.to_string(), v)).collect())
}

fn num(x: f64) -> Node {
    Node::Real(x.to_bits())
}

fn value(s: Scalar) -> f32 {
    match s {
        Scalar::Integer(n) => n as f32,
        Scalar::Real(bits) => f64::from_bits(bits) as f32,
        Scalar::Ratio(n, d) => f32::from(n) / f32::from(d),
    }
}

#[test]
fn hex_literals_of_two_digits() {
    assert_eq!(parse_hex("0x00"), Some(0));
    assert_eq!(parse_hex("0x0f"), Some(15));
    assert_eq!(parse_hex("0xff"), Some(255));
    assert_eq!(parse_hex("0xFF"), Some(255));
    assert_eq!(parse_hex("0xaB"), Some(171));
    assert_eq!(parse_hex("0x36"), Some(54));
}

#[test]
fn hex_literals_of_other_lengths() {
    assert_eq!(parse_hex("0x7"), Some(7));
    assert_eq!(parse_hex("0x000ff"), Some(255));
    assert_eq!(parse_hex("0x+ff"), Some(255));
}

#[test]
fn hex_literals_that_are_none() {
    assert_eq!(parse_hex("ff"), None);
    assert_eq!(parse_hex("255"), None);
    assert_eq!(parse_hex(""), None);
    assert_eq!(parse_hex("0"), None);
    assert_eq!(parse_hex("0x"), None);
    assert_eq!(parse_hex("0x+"), None);
    assert_eq!(parse_hex("0X1f"), None);
    assert_eq!(parse_hex("0xg0"), None);
    assert_eq!(parse_hex("0x-1"), None);
    assert_eq!(parse_hex("0x100"), None);
    assert_eq!(parse_hex("0xfff"), None);
    assert_eq!(parse_hex("0x1 "), None);
    assert_eq!(parse_hex("0xé"), None);
}

#[test]
fn hex_literals_agree_with_the_standard_library() {
    for n in 0..=255u8 {
        assert_eq!(parse_hex(&format!("0x{:02x}", n)), Some(n));
        assert_eq!(parse_hex(&format!("0x{:X}", n)), Some(n));
    }
    for s in ["1", "+1", "-1", "", "+", "00ff", "100", "fg", "f f", "0x1"] {
        let expected = u8::from_str_radix(s, 16).ok();
        assert_eq!(parse_hex(&format!("0x{}", s)), expected);
    }
}

#[test]
fn every_hex_triple_gives_its_bytes_over_255() {
    let local = ColorMap::new();
    for n in 0..=255u8 {
        let other = 255 - n;
        let literal = Node::List(vec![
            text(&format!("0x{:02x}", n)),
            text(&format!("0x{:02X}", other)),
            text("0x80"),
        ]);
        let color = decode_color(&literal, &local).unwrap();
        assert_eq!(color, Color::from_rgb8(n, other, 128));
        assert!((value(color.r) - f32::from(n) / 255.0).abs() < 1e-6);
        assert!((value(color.g) - f32::from(other) / 255.0).abs() < 1e-6);
        assert!((value(color.b) - 128.0 / 255.0).abs() < 1e-6);
        assert_eq!(value(color.a), 1.0);
        assert_eq!(color.halvings, 0);
    }
}

#[test]
fn hex_channels_equal_those_of_the_toolkit() {
    let c = Color::from_rgb8(54, 57, 63);
    let expected = iced_native::Color::from_rgb8(54, 57, 63);
    assert_eq!(value(c.r), expected.r);
    assert_eq!(value(c.g), expected.g);
    assert_eq!(value(c.b), expected.b);
    assert_eq!(value(c.a), expected.a);
}

#[test]
fn hex_triple_with_alpha() {
    let local = ColorMap::new();
    let literal = Node::List(vec![text("0xff"), text("0x00"), text("0x7f"), num(0.25)]);
    let color = decode_color(&literal, &local).unwrap();
    assert_eq!(color, Color::from_rgba8(255, 0, 127, Scalar::Real(0.25f64.to_bits())));
    assert_eq!(value(color.a), 0.25);
}

#[test]
fn hex_struct_with_and_without_alpha() {
    let local = ColorMap::new();
    let opaque = table(vec![("r", text("0x10")), ("g", text("0x20")), ("b", text("0x30"))]);
    assert_eq!(decode_color(&opaque, &local).unwrap(), Color::from_rgb8(16, 32, 48));
    let clear = table(vec![
        ("r", text("0x10")),
        ("g", text("0x20")),
        ("b", text("0x30")),
        ("a", Node::Integer(0)),
    ]);
    assert_eq!(
        decode_color(&clear, &local).unwrap(),
        Color::from_rgba8(16, 32, 48, Scalar::Integer(0))
    );
}

#[test]
fn bare_hex_is_reported_with_its_text() {
    let local = ColorMap::new();
    let literal = Node::List(vec![text("ff"), text("0x00"), text("0x00")]);
    let e = decode_color(&literal, &local).unwrap_err();
    assert_eq!(e, Error::InvalidHex("ff".to_string()));
    assert_eq!(e.kind(), ErrorKind::Color);
    assert_eq!(e.message(), "invalid hex: ff");
}

#[test]
fn the_first_bad_byte_is_the_one_reported() {
    let local = ColorMap::new();
    let literal = Node::List(vec![text("0x00"), text("0xzz"), text("nope")]);
    assert_eq!(decode_color(&literal, &local).unwrap_err(), Error::InvalidHex("0xzz".to_string()));
}

#[test]
fn number_triples_and_quadruples() {
    let local = ColorMap::new();
    let rgb = Node::List(vec![num(0.5), Node::Integer(1), num(0.0)]);
    assert_eq!(
        decode_color(&rgb, &local).unwrap(),
        Color::from_rgb(Scalar::Real(0.5f64.to_bits()), Scalar::Integer(1), Scalar::Real(0))
    );
    let rgba = Node::List(vec![num(0.5), num(0.5), num(0.5), num(0.75)]);
    let c = decode_color(&rgba, &local).unwrap();
    assert_eq!(value(c.a), 0.75);
    assert_eq!(value(c.r), 0.5);
}

#[test]
fn numbers_out_of_range_pass_through() {
    let local = ColorMap::new();
    let rgb = Node::List(vec![num(7.5), Node::Integer(-3), num(0.0)]);
    let c = decode_color(&rgb, &local).unwrap();
    assert_eq!(value(c.r), 7.5);
    assert_eq!(value(c.g), -3.0);
}

#[test]
fn number_structs() {
    let local = ColorMap::new();
    let rgb =
        table(vec![("r", Node::Integer(1)), ("g", Node::Integer(0)), ("b", Node::Integer(0))]);
    assert_eq!(
        decode_color(&rgb, &local).unwrap(),
        Color::from_rgb(Scalar::Integer(1), Scalar::Integer(0), Scalar::Integer(0))
    );
    let rgba = table(vec![
        ("r", Node::Integer(1)),
        ("g", Node::Integer(0)),
        ("b", Node::Integer(0)),
        ("a", num(0.5)),
    ]);
    assert_eq!(
        decode_color(&rgba, &local).unwrap(),
        Color::from_rgba(
            Scalar::Integer(1),
            Scalar::Integer(0),
            Scalar::Integer(0),
            Scalar::Real(0.5f64.to_bits())
        )
    );
}

#[test]
fn name_with_alpha() {
    let local = ColorMap::new();
    let literal = table(vec![("rgb", text("Red")), ("a", num(0.5))]);
    let c = decode_color(&literal, &local).unwrap();
    assert_eq!(c, Color::from_rgba8(255, 0, 0, Scalar::Real(0.5f64.to_bits())));
}

#[test]
fn shapes_that_are_no_colour() {
    let local = ColorMap::new();
    let cases = vec![
        Node::Integer(3),
        Node::Boolean(true),
        Node::List(vec![]),
        Node::List(vec![num(0.0), num(0.0)]),
        Node::List(vec![num(0.0), num(0.0), num(0.0), num(0.0), num(0.0)]),
        Node::List(vec![num(0.0), text("0x00"), num(0.0)]),
        Node::List(vec![text("0x00"), text("0x00"), text("0x00"), text("0x00")]),
        table(vec![("r", num(0.0)), ("g", num(0.0))]),
        table(vec![("rgb", text("red"))]),
        table(vec![("rgb", Node::Integer(1)), ("a", num(0.5))]),
        table(vec![]),
    ];
    for case in cases {
        let e = decode_color(&case, &local).unwrap_err();
        assert_eq!(e, Error::Shape);
        assert_eq!(e.kind(), ErrorKind::Format);
    }
}

#[test]
fn names_resolve_in_any_case() {
    let local = ColorMap::new();
    let red = resolve("red", &local).unwrap();
    assert_eq!(red, Color::from_rgb8(255, 0, 0));
    assert_eq!(resolve("Red", &local).unwrap(), red);
    assert_eq!(resolve("RED", &local).unwrap(), red);
    assert_eq!(resolve("rEd", &local).unwrap(), red);
    assert_eq!(decode_color(&text("RED"), &local).unwrap(), red);
}

#[test]
fn some_built_in_names() {
    assert_eq!(builtin_color("black"), Some(Color::from_rgb8(0, 0, 0)));
    assert_eq!(builtin_color("white"), Some(Color::from_rgb8(255, 255, 255)));
    assert_eq!(builtin_color("aliceblue"), Some(Color::from_rgb8(240, 248, 255)));
    assert_eq!(builtin_color("rebeccapurple"), None);
    assert_eq!(builtin_color("yellowgreen"), Some(Color::from_rgb8(154, 205, 50)));
    assert_eq!(builtin_color("grey"), builtin_color("gray"));
    assert_eq!(builtin_color("Red"), None);
    assert_eq!(builtin_color(""), None);
}

#[test]
fn unknown_name_is_reported_in_lower_case() {
    let local = ColorMap::new();
    let e = resolve("No_Such", &local).unwrap_err();
    assert_eq!(e, Error::UnknownAlias("no_such".to_string()));
    assert_eq!(e.kind(), ErrorKind::Color);
    assert_eq!(e.message(), "cannot find color alias 'no_such'");
}

#[test]
fn names_of_the_document_resolve_in_any_case() {
    let mut local = ColorMap::new();
    let c = Color::from_rgb8(1, 2, 3);
    local.insert("My_Color", c);
    assert_eq!(resolve("my_color", &local).unwrap(), c);
    assert_eq!(resolve("MY_COLOR", &local).unwrap(), c);
    assert_eq!(local.get("my_color"), Some(&c));
    assert_eq!(local.get("My_Color"), Some(&c));
    assert_eq!(local.get("MY_color"), Some(&c));
    assert!(local.contains_key("mY_cOLOR"));
    assert!(!local.contains_key("my-color"));
    assert_eq!(local.get("other"), None);
}

#[test]
fn a_name_of_the_document_shadows_the_built_in_one() {
    let mut local = ColorMap::new();
    assert_eq!(resolve("red", &local).unwrap(), Color::from_rgb8(255, 0, 0));
    local.insert("Red", Color::from_rgb8(1, 2, 3));
    assert_eq!(resolve("red", &local).unwrap(), Color::from_rgb8(1, 2, 3));
    assert_eq!(resolve("RED", &local).unwrap(), Color::from_rgb8(1, 2, 3));
    assert_eq!(decode_color(&text("red"), &local).unwrap(), Color::from_rgb8(1, 2, 3));
    assert_eq!(resolve("blue", &local).unwrap(), Color::from_rgb8(0, 0, 255));
    local.insert("red", Color::from_transparent());
    assert_eq!(resolve("red", &local).unwrap(), Color::from_transparent());
}

#[test]
fn a_later_entry_replaces_an_earlier_one() {
    let mut local = ColorMap::new();
    local.insert("accent", Color::from_rgb8(1, 2, 3));
    local.insert("ACCENT", Color::from_rgb8(4, 5, 6));
    assert_eq!(local.get("accent"), Some(&Color::from_rgb8(4, 5, 6)));
}

#[test]
fn map_of_entries() {
    let entries = vec![
        ("One".to_string(), Color::from_rgb8(1, 1, 1)),
        ("two".to_string(), Color::from_rgb8(2, 2, 2)),
        ("ONE".to_string(), Color::from_rgb8(3, 3, 3)),
    ];
    let map = ColorMap::from_entries(&entries);
    assert_eq!(map.get("one"), Some(&Color::from_rgb8(3, 3, 3)));
    assert_eq!(map.get("Two"), Some(&Color::from_rgb8(2, 2, 2)));
    assert_eq!(map.get("three"), None);
    assert!(ColorMap::default().get("one").is_none());
    assert!(ColorMap::with_capacity(4).get("one").is_none());
}

#[test]
fn fading_halves_once_more_each_time() {
    let c = Color::from_rgba8(10, 20, 30, Scalar::Integer(1));
    let once = c.fade();
    assert_eq!(once.halvings, 1);
    assert_eq!((once.r, once.g, once.b, once.a), (c.r, c.g, c.b, c.a));
    assert_eq!(once.fade().halvings, 2);
    let mut many = c;
    for _ in 0..300 {
        many = many.fade();
    }
    assert_eq!(many.halvings, 255);
}

#[test]
fn named_constants() {
    assert_eq!(value(Color::from_black().r), 0.0);
    assert_eq!(value(Color::from_black().a), 1.0);
    assert_eq!(value(Color::from_white().g), 1.0);
    assert_eq!(value(Color::from_transparent().a), 0.0);
    assert_eq!(value(Color::from_gray(95).b), 0.95);
    assert_eq!(value(Color::from_gray(87).r), 0.87);
}
