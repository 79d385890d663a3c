use iced_style_config::color::{Background, Color};
use iced_style_config::error::{Error, ErrorKind};
use iced_style_config::layout::{Alignment, Horizontal, Length, Vertical};
use iced_style_config::node::Node;
use iced_style_config::number::Scalar;
use iced_style_config::sheets::Sheet;
use iced_style_config::widget::{
    button, checkbox, container, image, image_viewer, pick_list, progress_bar, qr_code, radio,
    scrollable, slider, svg, text, text_input,
};
use iced_style_config::Theme;

const DARK: &str = r##"
[color]
surface = ["0x36", "0x39", "0x3F"]
accent = ["0x6F", "0xFF", "0xE9"]
active = ["0x72", "0x89", "0xDA"]
hovered = ["0x67", "0x7B", "0xC4"]
muted = { rgb = "white", a = 0.4 }

[container.default]
text_color = "white"
background = "surface"

[radio.default.active]
background = "surface"
dot_color = "active"
border_width = 1.0
border_color = "active"

[radio.default.hovered]
background = { rgb = "surface", a = 0.5 }

[text_input.default]
placeholder_color = [0.4, 0.4, 0.4]
value_color = "white"
selection_color = "active"

[text_input.default.active]
background = "surface"
border_radius = 2.0
border_width = 0.0
border_color = "black"

[text_input.default.focused]
border_width = 1.0
border_color = "accent"

[button.default]
padding = 10
width = "fill"
height = { units = 40 }

[button.default.active]
background = "active"
border_radius = 3.0
text_color = "white"

[button.default.hovered]
background = "hovered"

[button.default.pressed]
border_width = 1.0
border_color = "white"

[button.secondary.active]
background = "muted"

[scrollable.default]
scrollbar_width = 8
align_items = "center"

[scrollable.default.active.scroller]
color = "active"
border_radius = 2.0

[scrollable.default.hovered]
background = { r = 1.0, g = 1.0, b = 1.0, a = 0.1 }

[slider.default.active]
rail_colors = ["active", { rgb = "active", a = 0.1 }]

[slider.default.active.handle]
shape = { circle = { radius = 9.0 } }
color = "active"

[progress_bar.default]
background = "surface"
bar = "active"
border_radius = 10.0

[checkbox.default.active]
background = "surface"
checkmark_color = "active"

[checkbox.default.active.checked]
background = "active"

[pick_list.default.menu]
text_color = "white"
background = "surface"

[pick_list.default.active]
text_color = "white"
"##;

const LIGHT: &str = r##"
[color]
ink = [0.11, 0.42, 0.87]

[button.default.active]
background = "ink"
border_radius = 12.0
shadow_offset = [1.0, 1.0]
text_color = [0.93, 0.93, 0.93]

[button.default.hovered]
shadow_offset = { x = 1.0, y = 2.0 }

[text.default]
size = 20
color = "ink"
horizontal_alignment = "center"
vertical_alignment = "bottom"

[container.default]
padding = 4
max_width = 800
align_x = "right"
align_y = "top"

[image.default]
width = "shrink"

[image_viewer.default]
min_scale = 0.5
max_scale = 4
scale_step = 0.25

[svg.default]
height = { fill_portion = 2 }

[qr_code.default]
dark = "navy"
cell_size = 6
"##;

fn value(s: Scalar) -> f32 {
    match s {
        Scalar::Integer(n) => n as f32,
        Scalar::Real(bits) => f64::from_bits(bits) as f32,
        Scalar::Ratio(n, d) => f32::from(n) / f32::from(d),
    }
}

fn num(x: f64) -> Scalar {
    Scalar::Real(x.to_bits())
}

#[test]
fn parse() {
    Theme::from_file(Ok(DARK.as_bytes().to_vec())).unwrap();
    Theme::from_file(Ok(LIGHT.as_bytes().to_vec())).unwrap();
}

#[test]
fn empty_document_gives_the_baseline_of_every_kind() {
    let theme = Theme::from_str("").unwrap();
    assert_eq!(*theme.button().get_default(), button::StyleSheet::base());
    assert_eq!(*theme.checkbox().get_default(), checkbox::StyleSheet::base());
    assert_eq!(*theme.container().get_default(), container::StyleSheet::base());
    assert_eq!(*theme.image().get_default(), image::StyleSheet::base());
    assert_eq!(*theme.image_viewer().get_default(), image_viewer::StyleSheet::base());
    assert_eq!(*theme.pick_list().get_default(), pick_list::StyleSheet::base());
    assert_eq!(*theme.progress_bar().get_default(), progress_bar::StyleSheet::base());
    assert_eq!(*theme.qr_code().get_default(), qr_code::StyleSheet::base());
    assert_eq!(*theme.radio().get_default(), radio::StyleSheet::base());
    assert_eq!(*theme.scrollable().get_default(), scrollable::StyleSheet::base());
    assert_eq!(*theme.slider().get_default(), slider::StyleSheet::base());
    assert_eq!(*theme.svg().get_default(), svg::StyleSheet::base());
    assert_eq!(*theme.text().get_default(), text::StyleSheet::base());
    assert_eq!(*theme.text_input().get_default(), text_input::StyleSheet::base());
    assert!(theme.color().get("surface").is_none());
}

#[test]
fn the_default_theme_is_that_of_the_empty_document() {
    let theme = Theme::default();
    let parsed = Theme::from_str("# nothing\n").unwrap();
    assert_eq!(theme.button().get_default(), parsed.button().get_default());
    assert_eq!(theme.slider().get_default(), parsed.slider().get_default());
    assert_eq!(theme.text().get_default(), parsed.text().get_default());
}

#[test]
fn empty_sections_give_the_baseline_too() {
    let theme = Theme::from_str("[button]\n[checkbox.default]\n[color]\n").unwrap();
    assert_eq!(*theme.button().get_default(), button::StyleSheet::base());
    assert_eq!(*theme.checkbox().get_default(), checkbox::StyleSheet::base());
}

#[test]
fn the_baseline_of_a_button_is_the_cascade_without_patches() {
    let sheet = button::StyleSheet::base();
    assert_eq!(sheet.width, None);
    assert_eq!(sheet.height, None);
    assert_eq!(sheet.padding, None);
    let style = sheet.style.unwrap();
    assert_eq!(style, button::Style::resolve(&button::StylePatch::new()));
    assert_eq!(style.active, button::Appearance::base());
    assert_eq!(style.active.background, None);
    assert_eq!(style.active.text_color, Color::from_black());
    assert_eq!(style.active.border_color, Color::from_transparent());
    assert_eq!(value(style.active.border_radius), 0.0);
    assert_eq!(value(style.active.border_width), 0.0);
}

#[test]
fn colours_of_the_document() {
    let theme = Theme::from_str(DARK).unwrap();
    assert_eq!(theme.color().get("surface"), Some(&Color::from_rgb8(0x36, 0x39, 0x3F)));
    assert_eq!(theme.color().get("Accent"), Some(&Color::from_rgb8(0x6F, 0xFF, 0xE9)));
    assert_eq!(
        theme.color().get("muted"),
        Some(&Color::from_rgba8(255, 255, 255, num(0.4)))
    );
    assert!(theme.color().contains_key("HOVERED"));
    assert!(!theme.color().contains_key("red"));
}

#[test]
fn dark_theme_values() {
    let theme = Theme::from_str(DARK).unwrap();
    let surface = Color::from_rgb8(0x36, 0x39, 0x3F);
    let active = Color::from_rgb8(0x72, 0x89, 0xDA);

    let container = theme.container().get_default();
    let style = container.style.unwrap();
    assert_eq!(style.text_color, Some(Color::from_rgb8(255, 255, 255)));
    assert_eq!(style.background, Some(Background::solid(surface)));
    assert_eq!(style.border_color, Color::from_transparent());

    let button = theme.button().get_default();
    assert_eq!(button.padding, Some(10));
    assert_eq!(button.width, Some(Length::Fill));
    assert_eq!(button.height, Some(Length::Units(40)));
    let style = button.style.unwrap();
    assert_eq!(style.active.background, Some(Background::solid(active)));
    assert_eq!(style.active.border_radius, num(3.0));
    assert_eq!(
        style.hovered.background,
        Some(Background::solid(Color::from_rgb8(0x67, 0x7B, 0xC4)))
    );
    assert_eq!(style.hovered.border_radius, num(3.0));
    assert_eq!(style.pressed.border_width, num(1.0));
    assert_eq!(style.pressed.background, Some(Background::solid(active)));

    let secondary = theme.button().get("secondary").unwrap();
    assert_eq!(secondary.padding, None);
    assert_eq!(
        secondary.style.unwrap().active.background,
        Some(Background::solid(Color::from_rgba8(255, 255, 255, num(0.4))))
    );

    let scrollable = theme.scrollable().get_default();
    assert_eq!(scrollable.scrollbar_width, Some(8));
    assert_eq!(scrollable.align_items, Some(Alignment::Center));
    let style = scrollable.style.unwrap();
    assert_eq!(style.active.scroller.color, active);
    assert_eq!(style.active.scroller.border_radius, num(2.0));
    assert_eq!(style.dragging.scroller.color, active);
    assert_eq!(
        style.hovered.background,
        Some(Background::solid(Color::from_rgba(num(1.0), num(1.0), num(1.0), num(0.1))))
    );
    assert_eq!(style.dragging.background, style.hovered.background);
    assert_eq!(style.active.background, None);

    let slider = theme.slider().get_default().style.unwrap();
    assert_eq!(slider.active.rail_colors, (active, Color::from_rgba8(0x72, 0x89, 0xDA, num(0.1))));
    assert_eq!(slider.active.handle.shape, slider::HandleShape::Circle { radius: num(9.0) });
    assert_eq!(slider.active.handle.color, active);
    assert_eq!(slider.hovered.handle.color, Color::from_gray(90));
    assert_eq!(slider.dragging.handle.color, Color::from_gray(85));
    assert_eq!(slider.dragging.handle.shape, slider::HandleShape::Circle { radius: num(9.0) });

    let bar = theme.progress_bar().get_default().style.unwrap();
    assert_eq!(bar.background, Background::solid(surface));
    assert_eq!(bar.bar, Background::solid(active));
    assert_eq!(bar.border_radius, num(10.0));

    let pick = theme.pick_list().get_default().style.unwrap();
    assert_eq!(pick.menu.text_color, Color::from_rgb8(255, 255, 255));
    assert_eq!(pick.menu.background, Background::solid(surface));
    assert_eq!(pick.menu.selected_text_color, Color::from_white());
    assert_eq!(pick.active.text_color, Color::from_rgb8(255, 255, 255));
    assert_eq!(pick.hovered.text_color, Color::from_rgb8(255, 255, 255));
    assert_eq!(pick.hovered.border_color, Color::from_black());
    assert_eq!(pick.active.border_color, Color::from_gray(70));
}

#[test]
fn light_theme_values() {
    let theme = Theme::from_str(LIGHT).unwrap();
    let ink = Color::from_rgb(num(0.11), num(0.42), num(0.87));
    let text = theme.text().get_default();
    assert_eq!(text.size, Some(20));
    assert_eq!(text.color, Some(ink));
    assert_eq!(text.horizontal_alignment, Some(Horizontal::Center));
    assert_eq!(text.vertical_alignment, Some(Vertical::Bottom));
    assert_eq!(text.width, None);

    let container = theme.container().get_default();
    assert_eq!(container.padding, Some(4));
    assert_eq!(container.max_width, Some(800));
    assert_eq!(container.max_height, None);
    assert_eq!(container.align_x, Some(Horizontal::Right));
    assert_eq!(container.align_y, Some(Vertical::Top));

    assert_eq!(theme.image().get_default().width, Some(Length::Shrink));
    assert_eq!(theme.svg().get_default().height, Some(Length::FillPortion(2)));

    let viewer = theme.image_viewer().get_default();
    assert_eq!(viewer.min_scale, Some(num(0.5)));
    assert_eq!(viewer.max_scale, Some(Scalar::Integer(4)));
    assert_eq!(viewer.scale_step, Some(num(0.25)));

    let qr = theme.qr_code().get_default();
    assert_eq!(qr.dark, Some(Color::from_rgb8(0, 0, 128)));
    assert_eq!(qr.light, None);
    assert_eq!(qr.cell_size, Some(6));
    assert_eq!(qr.colors(), Some((Color::from_rgb8(0, 0, 128), Color::from_white())));
    assert_eq!(qr_code::StyleSheet::base().colors(), None);

    let button = theme.button().get_default().style.unwrap();
    assert_eq!(value(button.active.shadow_offset.x), 1.0);
    assert_eq!(button.active.shadow_offset.steps, 0);
    assert_eq!(value(button.hovered.shadow_offset.y), 2.0);
    assert_eq!(button.hovered.shadow_offset.steps, 0);
}

#[test]
fn a_named_colour_resolves_wherever_its_section_stands() {
    let before = r##"
[button.default.active]
background = "my_color"

[color]
my_color = ["0x12", "0x34", "0x56"]
"##;
    let after = r##"
[color]
my_color = ["0x12", "0x34", "0x56"]

[button.default.active]
background = "my_color"
"##;
    let expected = Some(Background::solid(Color::from_rgb8(0x12, 0x34, 0x56)));
    let a = Theme::from_str(before).unwrap();
    let b = Theme::from_str(after).unwrap();
    assert_eq!(a.button().get_default().style.unwrap().active.background, expected);
    assert_eq!(b.button().get_default().style.unwrap().active.background, expected);
    assert_eq!(a.button().get_default(), b.button().get_default());
}

#[test]
fn a_named_colour_resolves_in_any_case() {
    let doc = r##"
[color]
My_Color = [1, 0, 0]

[text.default]
color = "MY_COLOR"

[text.other]
color = "my_color"
"##;
    let theme = Theme::from_str(doc).unwrap();
    let expected =
        Some(Color::from_rgb(Scalar::Integer(1), Scalar::Integer(0), Scalar::Integer(0)));
    assert_eq!(theme.text().get_default().color, expected);
    assert_eq!(theme.text().get("other").unwrap().color, expected);
}

#[test]
fn the_order_of_entries_in_a_node_is_free() {
    let color = Node::Table(vec![(
        "ink".to_string(),
        Node::List(vec![Node::Integer(0), Node::Integer(0), Node::Integer(1)]),
    )]);
    let text = Node::Table(vec![(
        "default".to_string(),
        Node::Table(vec![("color".to_string(), Node::Text("ink".to_string()))]),
    )]);
    let first = Node::Table(vec![
        ("text".to_string(), Node::Table(vec![(
            "default".to_string(),
            Node::Table(vec![("color".to_string(), Node::Text("ink".to_string()))]),
        )])),
        ("color".to_string(), Node::Table(vec![(
            "ink".to_string(),
            Node::List(vec![Node::Integer(0), Node::Integer(0), Node::Integer(1)]),
        )])),
    ]);
    let second = Node::Table(vec![("color".to_string(), color), ("text".to_string(), text)]);
    let a = Theme::from_node(&first).unwrap();
    let b = Theme::from_node(&second).unwrap();
    assert_eq!(a.text().get_default(), b.text().get_default());
    assert_eq!(
        a.text().get_default().color,
        Some(Color::from_rgb(Scalar::Integer(0), Scalar::Integer(0), Scalar::Integer(1)))
    );
}

#[test]
fn a_colour_of_the_colour_section_cannot_use_another_one() {
    let doc = r##"
[color]
first = "red"
second = "first"
"##;
    let e = Theme::from_str(doc).unwrap_err();
    assert_eq!(e, Error::UnknownAlias("first".to_string()));
}

#[test]
fn an_unknown_name_fails_the_whole_document() {
    let doc = r##"
[color]
surface = ["0x36", "0x39", "0x3F"]

[text_input.default.active]
background = "surface"
border_color = "transparent_black"
"##;
    let e = Theme::from_str(doc).unwrap_err();
    assert_eq!(e, Error::UnknownAlias("transparent_black".to_string()));
    assert_eq!(e.kind(), ErrorKind::Color);
    assert_eq!(e.message(), "cannot find color alias 'transparent_black'");
}

#[test]
fn malformed_text_is_an_error_of_format() {
    for doc in ["button = [", "[button", "a = ", "= 1", "[a]\n[a]\n"] {
        let e = Theme::from_str(doc).unwrap_err();
        assert_eq!(e.kind(), ErrorKind::Format);
        assert!(matches!(e, Error::Syntax(_)));
        assert!(!e.message().is_empty());
    }
}

#[test]
fn bytes_that_are_no_text_are_an_error_of_format() {
    let e = Theme::from_bytes(&[0xff, 0xfe, 0x00]).unwrap_err();
    assert_eq!(e.kind(), ErrorKind::Format);
}

#[test]
fn a_file_that_could_not_be_read_is_an_error_of_reading() {
    let refusal = "No such file or directory (os error 2)".to_string();
    let e = Theme::from_file(Err(refusal)).unwrap_err();
    assert_eq!(e.kind(), ErrorKind::Io);
    assert_eq!(e, Error::Io("No such file or directory (os error 2)".to_string()));
    assert_eq!(e.message(), "No such file or directory (os error 2)");
}

#[test]
fn wrong_types_are_errors_of_format() {
    let docs = [
        "button = 3",
        "color = \"red\"",
        "[button]\ndefault = 1",
        "[button.default]\nwidth = 3",
        "[button.default]\nwidth = \"wide\"",
        "[button.default]\npadding = -1",
        "[button.default]\npadding = 65536",
        "[button.default]\npadding = 1.5",
        "[button.default]\nactive = 1",
        "[button.default.active]\nborder_radius = \"2\"",
        "[button.default.active]\nshadow_offset = [1.0]",
        "[button.default.active]\nshadow_offset = { x = 1.0 }",
        "[container.default]\nmax_width = 4294967296",
        "[container.default]\nalign_x = \"top\"",
        "[container.default]\nalign_y = \"left\"",
        "[scrollable.default]\nalign_items = \"middle\"",
        "[slider.default.active.handle]\nshape = \"circle\"",
        "[slider.default.active.handle]\nshape = { circle = { } }",
        "[slider.default.active]\nrail_colors = [\"red\"]",
        "[text.default]\ncolor = true",
        "[text.default]\ncolor = 1979-05-27",
    ];
    for doc in docs {
        let e = Theme::from_str(doc).unwrap_err();
        assert_eq!(e, Error::Shape);
        assert_eq!(e.kind(), ErrorKind::Format);
        assert_eq!(e.message(), "value does not have the shape of a style sheet");
    }
}

#[test]
fn the_first_fault_in_the_order_of_the_kinds_is_reported() {
    let doc = r##"
[text.default]
color = "nothing_a"

[button.default.active]
text_color = "nothing_b"
"##;
    assert_eq!(Theme::from_str(doc).unwrap_err(), Error::UnknownAlias("nothing_b".to_string()));
    let doc = r##"
[button.default]
padding = "x"

[color]
c = ["0xgg", "0x00", "0x00"]
"##;
    assert_eq!(Theme::from_str(doc).unwrap_err(), Error::InvalidHex("0xgg".to_string()));
}

#[test]
fn keys_that_mean_nothing_are_passed_over() {
    let doc = r##"
title = "mine"

[button.default]
padding = 3
colour = "red"

[tooltip.default]
gap = 3
"##;
    let theme = Theme::from_str(doc).unwrap();
    assert_eq!(theme.button().get_default().padding, Some(3));
}

#[test]
fn limits_of_sizes() {
    let doc = "[container.default]\npadding = 65535\nmax_width = 4294967295\nmax_height = 0\n";
    let theme = Theme::from_str(doc).unwrap();
    let sheet = theme.container().get_default();
    assert_eq!(sheet.padding, Some(65535));
    assert_eq!(sheet.max_width, Some(4294967295));
    assert_eq!(sheet.max_height, Some(0));
}

#[test]
fn text_parses_to_a_theme() {
    let theme: Theme = LIGHT.parse().unwrap();
    assert_eq!(theme.text().get_default().size, Some(20));
    assert_eq!("x = ".parse::<Theme>().unwrap_err().kind(), ErrorKind::Format);
}

#[test]
fn a_colour_of_the_document_shadows_the_built_in_one() {
    let doc = r##"
[color]
Red = ["0x80", "0x00", "0x00"]
plum = "red"

[text.default]
color = "red"

[text.loud]
color = "RED"

[text.calm]
color = "blue"
"##;
    let theme = Theme::from_str(doc).unwrap();
    let dark_red = Color::from_rgb8(0x80, 0, 0);
    assert_eq!(theme.color().get("red"), Some(&dark_red));
    assert_eq!(theme.text().get_default().color, Some(dark_red));
    assert_eq!(theme.text().get("loud").unwrap().color, Some(dark_red));
    assert_eq!(theme.text().get("calm").unwrap().color, Some(Color::from_rgb8(0, 0, 255)));
    assert_eq!(theme.color().get("plum"), Some(&Color::from_rgb8(255, 0, 0)));
}

#[test]
fn numbers_that_are_no_numbers_pass_through() {
    let doc = "[image_viewer.default]\nmax_scale = inf\nmin_scale = nan\n";
    let theme = Theme::from_str(doc).unwrap();
    let sheet = theme.image_viewer().get_default();
    assert_eq!(sheet.max_scale, Some(Scalar::Real(f64::INFINITY.to_bits())));
    assert!(value(sheet.max_scale.unwrap()).is_infinite());
    assert!(value(sheet.min_scale.unwrap()).is_nan());
}
