use iced_style_config::color::{Background, Color};
use iced_style_config::layout::Vector;
use iced_style_config::merge::{merge, merge_opt};
use iced_style_config::number::Scalar;
use iced_style_config::widget::{
    button, checkbox, container, menu, pick_list, progress_bar, radio, rule, scrollable, slider,
    text_input,
};
use iced_style_config::Theme;

fn value(s: Scalar) -> f32 {
    match s {
        Scalar::Integer(n) => n as f32,
        Scalar::Real(bits) => f64::from_bits(bits) as f32,
        Scalar::Ratio(n, d) => f32::from(n) / f32::from(d),
    }
}

fn alpha(c: Color) -> f32 {
    let mut a = value(c.a);
    for _ in 0..c.halvings {
        a *= 0.5;
    }
    a
}

fn offset(v: Vector) -> (f32, f32) {
    let (mut x, mut y) = (value(v.x), value(v.y));
    for _ in 0..v.steps {
        x += 0.0;
        y += 1.0;
    }
    (x, y)
}

fn num(x: f64) -> Scalar {
    Scalar::Real(x.to_bits())
}

#[test]
fn overlay_keeps_or_replaces() {
    assert_eq!(merge(1u16, None), 1);
    assert_eq!(merge(1u16, Some(2)), 2);
    assert_eq!(merge_opt(None::<u16>, None), None);
    assert_eq!(merge_opt(Some(1u16), None), Some(1));
    assert_eq!(merge_opt(None, Some(2u16)), Some(2));
    assert_eq!(merge_opt(Some(1u16), Some(2)), Some(2));
}

#[test]
fn disabled_button_has_half_the_alpha_of_the_active_background() {
    let doc = "[button.default.active]\nbackground = { r = 1, g = 0, b = 0, a = 1 }\n";
    let theme = Theme::from_str(doc).unwrap();
    let style = theme.button().get_default().style.unwrap();
    let active = style.active.background.unwrap().color;
    let disabled = style.disabled.background.unwrap().color;
    assert_eq!(
        active,
        Color::from_rgba(
            Scalar::Integer(1),
            Scalar::Integer(0),
            Scalar::Integer(0),
            Scalar::Integer(1)
        )
    );
    assert_eq!(disabled, active.fade());
    assert_eq!((disabled.r, disabled.g, disabled.b), (active.r, active.g, active.b));
    assert_eq!(alpha(active), 1.0);
    assert_eq!(alpha(disabled), 0.5);
    assert_eq!(alpha(disabled), alpha(active) * 0.5);
}

#[test]
fn disabled_button_halves_any_alpha() {
    let doc = r##"
[button.default.active]
background = [0.2, 0.4, 0.6, 0.3]
text_color = [1, 1, 1, 0.8]
"##;
    let theme = Theme::from_str(doc).unwrap();
    let style = theme.button().get_default().style.unwrap();
    let active = style.active.background.unwrap().color;
    let disabled = style.disabled.background.unwrap().color;
    assert_eq!(alpha(disabled), alpha(active) * 0.5);
    assert_eq!(alpha(style.disabled.text_color), alpha(style.active.text_color) * 0.5);
    assert_eq!(style.disabled.text_color, style.active.text_color.fade());
}

#[test]
fn disabled_button_without_background_has_none() {
    let style = button::Style::resolve(&button::StylePatch::new());
    assert_eq!(style.disabled.background, None);
    assert_eq!(style.disabled.text_color, Color::from_black().fade());
    assert_eq!(alpha(style.disabled.text_color), 0.5);
}

#[test]
fn a_patch_of_the_disabled_state_wins() {
    let doc = r##"
[button.default.active]
background = "red"
text_color = "white"
shadow_offset = [2, 3]

[button.default.disabled]
background = "blue"
text_color = "gray"
shadow_offset = [4, 5]
"##;
    let theme = Theme::from_str(doc).unwrap();
    let style = theme.button().get_default().style.unwrap();
    assert_eq!(style.disabled.background, Some(Background::solid(Color::from_rgb8(0, 0, 255))));
    assert_eq!(style.disabled.text_color, Color::from_rgb8(128, 128, 128));
    assert_eq!(offset(style.disabled.shadow_offset), (4.0, 5.0));
}

#[test]
fn button_shadow_through_the_states() {
    let doc = "[button.default.active]\nshadow_offset = [2.0, 3.0]\nborder_width = 2\n";
    let theme = Theme::from_str(doc).unwrap();
    let style = theme.button().get_default().style.unwrap();
    assert_eq!(offset(style.active.shadow_offset), (2.0, 3.0));
    assert_eq!(style.hovered.shadow_offset, style.active.shadow_offset.lower());
    assert_eq!(offset(style.hovered.shadow_offset), (2.0, 4.0));
    assert_eq!(style.pressed.shadow_offset, Vector::origin());
    assert_eq!(offset(style.pressed.shadow_offset), (0.0, 0.0));
    assert_eq!(offset(style.disabled.shadow_offset), (0.0, 0.0));
    assert_eq!(value(style.hovered.border_width), 2.0);
    assert_eq!(value(style.pressed.border_width), 2.0);
    assert_eq!(value(style.disabled.border_width), 2.0);
}

#[test]
fn button_shadow_of_the_baseline() {
    let style = button::Style::resolve(&button::StylePatch::new());
    assert_eq!(offset(style.active.shadow_offset), (0.0, 0.0));
    assert_eq!(offset(style.hovered.shadow_offset), (0.0, 1.0));
}

#[test]
fn lowering_moves_once_more_each_time() {
    let v = Vector::new(Scalar::Integer(1), Scalar::Integer(2));
    assert_eq!(v.lower().steps, 1);
    assert_eq!(offset(v.lower().lower()), (1.0, 4.0));
    let mut many = v;
    for _ in 0..300 {
        many = many.lower();
    }
    assert_eq!(many.steps, 255);
}

#[test]
fn states_start_from_the_patched_active_state() {
    let mut patch = button::StylePatch::new();
    patch.active.border_color = Some(Color::from_rgb8(1, 2, 3));
    patch.hovered.border_width = Some(Scalar::Integer(7));
    let style = button::Style::resolve(&patch);
    assert_eq!(style.hovered.border_color, Color::from_rgb8(1, 2, 3));
    assert_eq!(style.pressed.border_color, Color::from_rgb8(1, 2, 3));
    assert_eq!(style.disabled.border_color, Color::from_rgb8(1, 2, 3));
    assert_eq!(style.hovered.border_width, Scalar::Integer(7));
    assert_eq!(style.active.border_width, Scalar::Integer(0));
    assert_eq!(style.pressed.border_width, Scalar::Integer(0));
}

#[test]
fn overwrite_lays_a_patch_over_a_look() {
    let mut look = button::Appearance::base();
    let mut patch = button::Patch::new();
    patch.overwrite(&mut look);
    assert_eq!(look, button::Appearance::base());
    patch.background = Some(Background::solid(Color::from_white()));
    patch.border_radius = Some(Scalar::Integer(4));
    patch.overwrite(&mut look);
    assert_eq!(look.background, Some(Background::solid(Color::from_white())));
    assert_eq!(look.border_radius, Scalar::Integer(4));
    assert_eq!(look.text_color, Color::from_black());
    button::Patch::new().overwrite(&mut look);
    assert_eq!(look.background, Some(Background::solid(Color::from_white())));
}

#[test]
fn checkbox_baseline() {
    let style = checkbox::Style::resolve(&checkbox::StylePatch::new());
    assert_eq!(style.active.background, Background::solid(Color::from_gray(95)));
    assert_eq!(style.active.checkmark_color, Color::from_gray(30));
    assert_eq!(value(style.active.border_radius), 5.0);
    assert_eq!(value(style.active.border_width), 1.0);
    assert_eq!(style.active.border_color, Color::from_gray(60));
    assert_eq!(style.active.text_color, None);
    assert_eq!(style.active_checked, style.active);
    assert_eq!(style.hovered.background, Background::solid(Color::from_gray(90)));
    assert_eq!(style.hovered.checkmark_color, style.active.checkmark_color);
    assert_eq!(style.hovered_checked, style.hovered);
    assert_eq!(value(Color::from_gray(95).r), 0.95);
    assert_eq!(value(Color::from_gray(90).r), 0.90);
}

#[test]
fn checkbox_cascade() {
    let doc = r##"
[checkbox.default.active]
border_width = 2
text_color = "black"

[checkbox.default.active.checked]
background = "green"
border_width = 3

[checkbox.default.hovered]
checkmark_color = "red"

[checkbox.default.hovered.checked]
border_color = "blue"
"##;
    let theme = Theme::from_str(doc).unwrap();
    let style = theme.checkbox().get_default().style.unwrap();
    let green = Background::solid(Color::from_rgb8(0, 128, 0));
    assert_eq!(value(style.active.border_width), 2.0);
    assert_eq!(style.active.text_color, Some(Color::from_rgb8(0, 0, 0)));
    assert_eq!(style.active.background, Background::solid(Color::from_gray(95)));
    assert_eq!(style.active_checked.background, green);
    assert_eq!(value(style.active_checked.border_width), 3.0);
    assert_eq!(style.active_checked.text_color, Some(Color::from_rgb8(0, 0, 0)));

    assert_eq!(style.hovered.background, Background::solid(Color::from_gray(90)));
    assert_eq!(style.hovered.checkmark_color, Color::from_rgb8(255, 0, 0));
    assert_eq!(value(style.hovered.border_width), 2.0);
    assert_eq!(style.hovered.border_color, Color::from_gray(60));

    assert_eq!(style.hovered_checked.background, Background::solid(Color::from_gray(90)));
    assert_eq!(style.hovered_checked.checkmark_color, Color::from_rgb8(255, 0, 0));
    assert_eq!(value(style.hovered_checked.border_width), 3.0);
    assert_eq!(style.hovered_checked.border_color, Color::from_rgb8(0, 0, 255));

    assert_eq!(style.active(false), style.active);
    assert_eq!(style.active(true), style.active_checked);
    assert_eq!(style.hovered(false), style.hovered);
    assert_eq!(style.hovered(true), style.hovered_checked);
}

#[test]
fn container_cascade() {
    let base = container::Style::resolve(&container::StylePatch::new());
    assert_eq!(base, container::Style::base());
    assert_eq!(base.text_color, None);
    assert_eq!(base.background, None);
    assert_eq!(base.border_color, Color::from_transparent());
    let mut patch = container::StylePatch::new();
    patch.border_width = Some(Scalar::Integer(2));
    patch.text_color = Some(Color::from_white());
    let style = container::Style::resolve(&patch);
    assert_eq!(style.border_width, Scalar::Integer(2));
    assert_eq!(style.text_color, Some(Color::from_white()));
    assert_eq!(style.background, None);
}

#[test]
fn menu_and_pick_list_cascade() {
    let m = menu::Style::resolve(&menu::Patch::new());
    assert_eq!(m.text_color, Color::from_black());
    assert_eq!(m.background, Background::solid(Color::from_gray(87)));
    assert_eq!(value(m.border_width), 1.0);
    assert_eq!(m.border_color, Color::from_gray(70));
    assert_eq!(m.selected_text_color, Color::from_white());
    let selected = m.selected_background.color;
    assert_eq!((value(selected.r), value(selected.g), value(selected.b)), (0.4, 0.4, 1.0));

    let style = pick_list::Style::resolve(&pick_list::StylePatch::new());
    assert_eq!(style.menu, m);
    assert_eq!(style.active.text_color, Color::from_black());
    assert_eq!(style.active.placeholder_color, Color::from_gray(40));
    assert_eq!(style.active.background, Background::solid(Color::from_gray(87)));
    assert_eq!(value(style.active.border_radius), 0.0);
    assert_eq!(value(style.active.border_width), 1.0);
    assert_eq!(style.active.border_color, Color::from_gray(70));
    assert_eq!(value(style.active.icon_size), 0.7);
    assert_eq!(style.hovered.border_color, Color::from_black());
    assert_eq!(style.hovered.background, style.active.background);

    let doc = r##"
[pick_list.default.active]
icon_size = 0.5

[pick_list.default.hovered]
border_color = "red"

[pick_list.default.menu]
border_width = 0
"##;
    let theme = Theme::from_str(doc).unwrap();
    let style = theme.pick_list().get_default().style.unwrap();
    assert_eq!(value(style.hovered.icon_size), 0.5);
    assert_eq!(style.hovered.border_color, Color::from_rgb8(255, 0, 0));
    assert_eq!(value(style.menu.border_width), 0.0);
    assert_eq!(style.menu.border_color, Color::from_gray(70));
}

#[test]
fn progress_bar_cascade() {
    let style = progress_bar::Style::resolve(&progress_bar::StylePatch::new());
    assert_eq!(style.background, Background::solid(Color::from_gray(60)));
    let bar = style.bar.color;
    assert_eq!((value(bar.r), value(bar.g), value(bar.b), value(bar.a)), (0.3, 0.9, 0.3, 1.0));
    assert_eq!(value(style.border_radius), 5.0);
}

#[test]
fn radio_cascade() {
    let style = radio::Style::resolve(&radio::StylePatch::new());
    assert_eq!(style.active.background, Background::solid(Color::from_gray(95)));
    assert_eq!(style.active.dot_color, Color::from_gray(30));
    assert_eq!(value(style.active.border_width), 1.0);
    assert_eq!(style.active.border_color, Color::from_gray(60));
    assert_eq!(style.active.text_color, None);
    assert_eq!(style.hovered.background, Background::solid(Color::from_gray(90)));
    assert_eq!(style.hovered.dot_color, style.active.dot_color);

    let doc = "[radio.default.active]\nbackground = \"red\"\ndot_color = \"blue\"\n";
    let theme = Theme::from_str(doc).unwrap();
    let style = theme.radio().get_default().style.unwrap();
    assert_eq!(style.hovered.background, Background::solid(Color::from_gray(90)));
    assert_eq!(style.hovered.dot_color, Color::from_rgb8(0, 0, 255));
}

#[test]
fn rule_cascade() {
    let style = rule::Style::resolve(&rule::StylePatch::new());
    let c = style.color;
    assert_eq!((value(c.r), value(c.g), value(c.b), value(c.a)), (0.6, 0.6, 0.6, 0.51));
    assert_eq!(style.width, 1);
    assert_eq!(value(style.radius), 0.0);
    assert_eq!(style.fill_mode, rule::FillMode::Percent(Scalar::Integer(90)));
}

#[test]
fn scrollable_cascade() {
    let style = scrollable::Style::resolve(&scrollable::StylePatch::new());
    assert_eq!(style.active.background, None);
    assert_eq!(value(style.active.border_radius), 5.0);
    assert_eq!(value(style.active.border_width), 0.0);
    assert_eq!(style.active.border_color, Color::from_transparent());
    let c = style.active.scroller.color;
    assert_eq!((value(c.r), value(c.g), value(c.b), value(c.a)), (0.0, 0.0, 0.0, 0.7));
    assert_eq!(value(style.active.scroller.border_radius), 5.0);
    let h = style.hovered.background.unwrap().color;
    assert_eq!((value(h.r), value(h.g), value(h.b), value(h.a)), (0.0, 0.0, 0.0, 0.3));
    assert_eq!(style.dragging, style.hovered);

    let doc = r##"
[scrollable.default.active]
border_width = 1

[scrollable.default.hovered]
border_width = 2

[scrollable.default.hovered.scroller]
border_width = 3

[scrollable.default.dragging.scroller]
color = "red"
"##;
    let theme = Theme::from_str(doc).unwrap();
    let style = theme.scrollable().get_default().style.unwrap();
    assert_eq!(value(style.active.border_width), 1.0);
    assert_eq!(value(style.hovered.border_width), 2.0);
    assert_eq!(value(style.dragging.border_width), 2.0);
    assert_eq!(value(style.active.scroller.border_width), 0.0);
    assert_eq!(value(style.hovered.scroller.border_width), 3.0);
    assert_eq!(value(style.dragging.scroller.border_width), 3.0);
    assert_eq!(style.dragging.scroller.color, Color::from_rgb8(255, 0, 0));
    assert_eq!(style.hovered.scroller.color, style.active.scroller.color);
}

#[test]
fn slider_cascade() {
    let style = slider::Style::resolve(&slider::StylePatch::new());
    let rail = style.active.rail_colors;
    assert_eq!(
        (value(rail.0.r), value(rail.0.g), value(rail.0.b), value(rail.0.a)),
        (0.6, 0.6, 0.6, 0.5)
    );
    assert_eq!(rail.1, Color::from_white());
    assert_eq!(
        style.active.handle.shape,
        slider::HandleShape::Rectangle { width: 8, border_radius: Scalar::Integer(4) }
    );
    assert_eq!(style.active.handle.color, Color::from_gray(95));
    assert_eq!(style.active.handle.border_color, Color::from_gray(60));
    assert_eq!(value(style.active.handle.border_width), 1.0);
    assert_eq!(style.hovered.handle.color, Color::from_gray(90));
    assert_eq!(style.dragging.handle.color, Color::from_gray(85));
    assert_eq!(value(Color::from_gray(85).r), 0.85);
    assert_eq!(style.hovered.rail_colors, rail);

    let doc = r##"
[slider.default.active.handle]
shape = { rectangle = { width = 12, border_radius = 1.5 } }
color = "red"
border_width = 2

[slider.default.dragging.handle]
color = "blue"
"##;
    let theme = Theme::from_str(doc).unwrap();
    let style = theme.slider().get_default().style.unwrap();
    let shape = slider::HandleShape::Rectangle { width: 12, border_radius: num(1.5) };
    assert_eq!(style.active.handle.shape, shape);
    assert_eq!(style.hovered.handle.shape, shape);
    assert_eq!(style.active.handle.color, Color::from_rgb8(255, 0, 0));
    assert_eq!(style.hovered.handle.color, Color::from_gray(90));
    assert_eq!(style.dragging.handle.color, Color::from_rgb8(0, 0, 255));
    assert_eq!(value(style.dragging.handle.border_width), 2.0);
}

#[test]
fn text_input_cascade() {
    let style = text_input::Style::resolve(&text_input::StylePatch::new());
    assert_eq!(style.active.background, Background::solid(Color::from_white()));
    assert_eq!(value(style.active.border_radius), 5.0);
    assert_eq!(value(style.active.border_width), 1.0);
    assert_eq!(style.active.border_color, Color::from_gray(70));
    assert_eq!(style.focused.border_color, Color::from_gray(50));
    assert_eq!(style.hovered, style.focused);
    assert_eq!(style.placeholder_color, Color::from_gray(70));
    assert_eq!(style.value_color, Color::from_gray(30));
    let s = style.selection_color;
    assert_eq!((value(s.r), value(s.g), value(s.b)), (0.8, 0.8, 1.0));

    let doc = r##"
[text_input.default]
value_color = "white"

[text_input.default.active]
border_width = 0

[text_input.default.focused]
border_radius = 9

[text_input.default.hovered]
border_color = "red"
"##;
    let theme = Theme::from_str(doc).unwrap();
    let style = theme.text_input().get_default().style.unwrap();
    assert_eq!(value(style.focused.border_width), 0.0);
    assert_eq!(value(style.focused.border_radius), 9.0);
    assert_eq!(style.focused.border_color, Color::from_gray(50));
    assert_eq!(value(style.hovered.border_radius), 9.0);
    assert_eq!(style.hovered.border_color, Color::from_rgb8(255, 0, 0));
    assert_eq!(style.value_color, Color::from_rgb8(255, 255, 255));
    assert_eq!(style.placeholder_color, Color::from_gray(70));
}
