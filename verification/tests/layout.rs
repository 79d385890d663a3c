use iced_style_config::color::{Color, ColorMap};
use iced_style_config::decode::{scalar, size16, size32};
use iced_style_config::error::Error;
use iced_style_config::layout::{
    decode_alignment, decode_horizontal, decode_length, decode_vector, decode_vertical, Alignment,
    Horizontal, Length, Vector, Vertical,
};
use iced_style_config::node::Node;
use iced_style_config::number::Scalar;
use iced_style_config::widget::rule::{decode_fill_mode, FillMode, Rule};
use iced_style_config::widget::slider::{decode_shape, HandleShape};

fn text(s: &str) -> Node {
    Node::Text(s.to_string())
}

fn table(entries: Vec<(&str, Node)>) -> Node {
    Node::Table(entries.into_iter().map(|(k, v)| (k.to_string(), v)).collect())
}

#[test]
fn numbers() {
    assert_eq!(scalar(&Node::Integer(-4)), Ok(Scalar::Integer(-4)));
    assert_eq!(scalar(&Node::Real(1.5f64.to_bits())), Ok(Scalar::Real(1.5f64.to_bits())));
    assert_eq!(scalar(&text("1.5")), Err(Error::Shape));
    assert_eq!(scalar(&Node::Boolean(true)), Err(Error::Shape));
}

#[test]
fn sizes() {
    assert_eq!(size16(&Node::Integer(0)), Ok(0));
    assert_eq!(size16(&Node::Integer(65535)), Ok(65535));
    assert_eq!(size16(&Node::Integer(65536)), Err(Error::Shape));
    assert_eq!(size16(&Node::Integer(-1)), Err(Error::Shape));
    assert_eq!(size16(&Node::Real(1.0f64.to_bits())), Err(Error::Shape));
    assert_eq!(size32(&Node::Integer(4294967295)), Ok(4294967295));
    assert_eq!(size32(&Node::Integer(4294967296)), Err(Error::Shape));
    assert_eq!(size32(&Node::Integer(i64::MIN)), Err(Error::Shape));
    assert_eq!(size32(&Node::Integer(i64::MAX)), Err(Error::Shape));
}

#[test]
fn lengths() {
    assert_eq!(decode_length(&text("fill")), Ok(Length::Fill));
    assert_eq!(decode_length(&text("shrink")), Ok(Length::Shrink));
    assert_eq!(decode_length(&table(vec![("units", Node::Integer(40))])), Ok(Length::Units(40)));
    assert_eq!(
        decode_length(&table(vec![("fill_portion", Node::Integer(2))])),
        Ok(Length::FillPortion(2))
    );
    assert_eq!(decode_length(&text("Fill")), Err(Error::Shape));
    assert_eq!(decode_length(&text("units")), Err(Error::Shape));
    assert_eq!(decode_length(&Node::Integer(40)), Err(Error::Shape));
    assert_eq!(decode_length(&table(vec![])), Err(Error::Shape));
    assert_eq!(decode_length(&table(vec![("units", Node::Integer(-1))])), Err(Error::Shape));
    assert_eq!(decode_length(&table(vec![("pixels", Node::Integer(1))])), Err(Error::Shape));
    assert_eq!(
        decode_length(&table(vec![
            ("units", Node::Integer(1)),
            ("fill_portion", Node::Integer(1))
        ])),
        Err(Error::Shape)
    );
}

#[test]
fn alignments() {
    assert_eq!(decode_alignment(&text("start")), Ok(Alignment::Start));
    assert_eq!(decode_alignment(&text("center")), Ok(Alignment::Center));
    assert_eq!(decode_alignment(&text("end")), Ok(Alignment::End));
    assert_eq!(decode_alignment(&text("fill")), Ok(Alignment::Fill));
    assert_eq!(decode_alignment(&text("left")), Err(Error::Shape));
    assert_eq!(decode_horizontal(&text("left")), Ok(Horizontal::Left));
    assert_eq!(decode_horizontal(&text("center")), Ok(Horizontal::Center));
    assert_eq!(decode_horizontal(&text("right")), Ok(Horizontal::Right));
    assert_eq!(decode_horizontal(&text("top")), Err(Error::Shape));
    assert_eq!(decode_vertical(&text("top")), Ok(Vertical::Top));
    assert_eq!(decode_vertical(&text("center")), Ok(Vertical::Center));
    assert_eq!(decode_vertical(&text("bottom")), Ok(Vertical::Bottom));
    assert_eq!(decode_vertical(&text("left")), Err(Error::Shape));
    assert_eq!(decode_vertical(&Node::Integer(0)), Err(Error::Shape));
}

#[test]
fn vectors() {
    let v = Vector::new(Scalar::Integer(1), Scalar::Real(2.5f64.to_bits()));
    let list = Node::List(vec![Node::Integer(1), Node::Real(2.5f64.to_bits())]);
    assert_eq!(decode_vector(&list), Ok(v));
    let record = table(vec![("y", Node::Real(2.5f64.to_bits())), ("x", Node::Integer(1))]);
    assert_eq!(decode_vector(&record), Ok(v));
    assert_eq!(v.steps, 0);
    assert_eq!(decode_vector(&Node::List(vec![Node::Integer(1)])), Err(Error::Shape));
    assert_eq!(
        decode_vector(&Node::List(vec![Node::Integer(1), Node::Integer(1), Node::Integer(1)])),
        Err(Error::Shape)
    );
    assert_eq!(decode_vector(&Node::List(vec![text("1"), Node::Integer(1)])), Err(Error::Shape));
    assert_eq!(decode_vector(&table(vec![("x", Node::Integer(1))])), Err(Error::Shape));
    assert_eq!(decode_vector(&text("origin")), Err(Error::Shape));
    assert_eq!(Vector::origin(), Vector::new(Scalar::Integer(0), Scalar::Integer(0)));
}

#[test]
fn fill_modes() {
    assert_eq!(decode_fill_mode(&text("full")), Ok(FillMode::Full));
    assert_eq!(
        decode_fill_mode(&table(vec![("percent", Node::Integer(50))])),
        Ok(FillMode::Percent(Scalar::Integer(50)))
    );
    assert_eq!(
        decode_fill_mode(&table(vec![("padded", Node::Integer(5))])),
        Ok(FillMode::Padded(5))
    );
    assert_eq!(
        decode_fill_mode(&table(vec![(
            "asymmetric_padding",
            Node::List(vec![Node::Integer(1), Node::Integer(2)])
        )])),
        Ok(FillMode::AsymmetricPadding(1, 2))
    );
    assert_eq!(decode_fill_mode(&text("half")), Err(Error::Shape));
    assert_eq!(decode_fill_mode(&table(vec![("padded", text("5"))])), Err(Error::Shape));
    assert_eq!(
        decode_fill_mode(&table(vec![("asymmetric_padding", Node::List(vec![Node::Integer(1)]))])),
        Err(Error::Shape)
    );
    assert_eq!(
        decode_fill_mode(&table(vec![("asymmetric_padding", Node::Integer(1))])),
        Err(Error::Shape)
    );
}

#[test]
fn rules() {
    let local = ColorMap::new();
    let rule = Rule::decode(
        &table(vec![
            ("color", text("red")),
            ("width", Node::Integer(3)),
            ("fill_mode", text("full")),
        ]),
        &local,
    )
    .unwrap();
    let style = rule.style.unwrap();
    assert_eq!(style.color, Color::from_rgb8(255, 0, 0));
    assert_eq!(style.width, 3);
    assert_eq!(style.radius, Scalar::Integer(0));
    assert_eq!(style.fill_mode, FillMode::Full);
    assert!(Rule::decode(&Node::Integer(1), &local).is_err());
}

#[test]
fn handle_shapes() {
    let circle = table(vec![("circle", table(vec![("radius", Node::Integer(6))]))]);
    assert_eq!(decode_shape(&circle), Ok(HandleShape::Circle { radius: Scalar::Integer(6) }));
    let rectangle = table(vec![(
        "rectangle",
        table(vec![("width", Node::Integer(8)), ("border_radius", Node::Integer(2))]),
    )]);
    assert_eq!(
        decode_shape(&rectangle),
        Ok(HandleShape::Rectangle { width: 8, border_radius: Scalar::Integer(2) })
    );
    assert_eq!(decode_shape(&text("circle")), Err(Error::Shape));
    assert_eq!(decode_shape(&table(vec![("circle", table(vec![]))])), Err(Error::Shape));
    assert_eq!(decode_shape(&table(vec![("circle", Node::Integer(6))])), Err(Error::Shape));
    assert_eq!(
        decode_shape(&table(vec![("rectangle", table(vec![("width", Node::Integer(8))]))])),
        Err(Error::Shape)
    );
    assert_eq!(
        decode_shape(&table(vec![("square", table(vec![("width", Node::Integer(8))]))])),
        Err(Error::Shape)
    );
}
