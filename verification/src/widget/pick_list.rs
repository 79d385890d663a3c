//! Pick lists.

use crate::color::{
    opt_background, opt_background_of, opt_color, opt_color_of, Background, Color, ColorMap,
};
use crate::decode::{opt_scalar, opt_scalar_of, opt_size16, opt_u16_of};
use crate::error::{outcome, Error, Fault};
use crate::layout::{opt_length, opt_length_of, Length};
use crate::merge::{merge, overlay};
use crate::node::{lookup, Node, Tree};
use crate::number::Scalar;
use crate::sheets::{Sheet, SheetMap};
use crate::widget::menu;
use vstd::prelude::*;

verus! {

/// How a pick list looks in one of its states.
#[derive(Clone, Copy, Debug, PartialEq, Eq)]
pub struct Appearance {
    pub text_color: Color,
    pub placeholder_color: Color,
    pub background: Background,
    pub border_radius: Scalar,
    pub border_width: Scalar,
    pub border_color: Color,
    pub icon_size: Scalar,
}

impl Appearance {
    /// The look of a pick list of which nothing is said: black on light grey, with a grey
    /// border of one unit.
    pub open spec fn baseline() -> Appearance {
        Appearance {
            text_color: Color::black(),
            placeholder_color: Color::gray(40),
            background: Background::of(Color::gray(87)),
            border_radius: Scalar::Integer(0),
            border_width: Scalar::Integer(1),
            border_color: Color::gray(70),
            icon_size: Scalar::Ratio(70, 100),
        }
    }

    /// The look of a pick list of which nothing is said.
    pub fn base() -> (r: Appearance)
        ensures
            r == Appearance::baseline(),
    {
        Appearance {
            text_color: Color::from_black(),
            placeholder_color: Color::from_gray(40),
            background: Background::solid(Color::from_gray(87)),
            border_radius: Scalar::Integer(0),
            border_width: Scalar::Integer(1),
            border_color: Color::from_gray(70),
            icon_size: Scalar::Ratio(70, 100),
        }
    }
}

/// What a document sets of the look of one state.
#[derive(Clone, Copy, Debug, PartialEq, Eq)]
pub struct Patch {
    pub text_color: Option<Color>,
    pub placeholder_color: Option<Color>,
    pub background: Option<Background>,
    pub border_radius: Option<Scalar>,
    pub border_width: Option<Scalar>,
    pub border_color: Option<Color>,
    pub icon_size: Option<Scalar>,
}

impl Patch {
    /// The patch of a state that sets nothing.
    pub open spec fn empty() -> Patch {
        Patch {
            text_color: None,
            placeholder_color: None,
            background: None,
            border_radius: None,
            border_width: None,
            border_color: None,
            icon_size: None,
        }
    }

    /// The look with what this sets laid over it.
    pub open spec fn over(self, base: Appearance) -> Appearance {
        Appearance {
            text_color: overlay(base.text_color, self.text_color),
            placeholder_color: overlay(base.placeholder_color, self.placeholder_color),
            background: overlay(base.background, self.background),
            border_radius: overlay(base.border_radius, self.border_radius),
            border_width: overlay(base.border_width, self.border_width),
            border_color: overlay(base.border_color, self.border_color),
            icon_size: overlay(base.icon_size, self.icon_size),
        }
    }

    /// A patch that sets nothing leaves what lies under it as it is.
    pub proof fn lemma_empty_keeps(base: Appearance)
        ensures
            Patch::empty().over(base) == base,
    {
    }

    /// The patch of a state that sets nothing.
    pub fn new() -> (r: Patch)
        ensures
            r == Patch::empty(),
    {
        Patch {
            text_color: None,
            placeholder_color: None,
            background: None,
            border_radius: None,
            border_width: None,
            border_color: None,
            icon_size: None,
        }
    }

    /// Lays what this sets over `style`.
    pub fn overwrite(&self, style: &mut Appearance)
        ensures
            *final(style) == self.over(*old(style)),
    {
        style.text_color = merge(style.text_color, self.text_color);
        style.placeholder_color = merge(style.placeholder_color, self.placeholder_color);
        style.background = merge(style.background, self.background);
        style.border_radius = merge(style.border_radius, self.border_radius);
        style.border_width = merge(style.border_width, self.border_width);
        style.border_color = merge(style.border_color, self.border_color);
        style.icon_size = merge(style.icon_size, self.icon_size);
    }
}

/// The patch of a state that a table writes.
///
/// The fault is that of the first field, in the order of the declaration, that is at fault.
pub open spec fn patch_of(t: Tree, local: Map<Seq<char>, Color>) -> Result<Patch, Fault> {
    let text_color = opt_color_of(t.field("text_color"@), local);
    let placeholder_color = opt_color_of(t.field("placeholder_color"@), local);
    let background = opt_background_of(t.field("background"@), local);
    let border_radius = opt_scalar_of(t.field("border_radius"@));
    let border_width = opt_scalar_of(t.field("border_width"@));
    let border_color = opt_color_of(t.field("border_color"@), local);
    let icon_size = opt_scalar_of(t.field("icon_size"@));
    if !(t is Table) {
        Err(Fault::Shape)
    } else if text_color is Err {
        Err(text_color->Err_0)
    } else if placeholder_color is Err {
        Err(placeholder_color->Err_0)
    } else if background is Err {
        Err(background->Err_0)
    } else if border_radius is Err {
        Err(border_radius->Err_0)
    } else if border_width is Err {
        Err(border_width->Err_0)
    } else if border_color is Err {
        Err(border_color->Err_0)
    } else if icon_size is Err {
        Err(icon_size->Err_0)
    } else {
        Ok(
            Patch {
                text_color: text_color->Ok_0,
                placeholder_color: placeholder_color->Ok_0,
                background: background->Ok_0,
                border_radius: border_radius->Ok_0,
                border_width: border_width->Ok_0,
                border_color: border_color->Ok_0,
                icon_size: icon_size->Ok_0,
            },
        )
    }
}

/// Reads the patch of a state.
pub fn decode_patch(v: &Node, local: &ColorMap) -> (r: Result<Patch, Error>)
    ensures
        outcome(r) == patch_of(v@, local@),
{
    if v.as_table().is_none() {
        return Err(Error::Shape);
    }
    let text_color = opt_color(v, "text_color", local)?;
    let placeholder_color = opt_color(v, "placeholder_color", local)?;
    let background = opt_background(v, "background", local)?;
    let border_radius = opt_scalar(v, "border_radius")?;
    let border_width = opt_scalar(v, "border_width")?;
    let border_color = opt_color(v, "border_color", local)?;
    let icon_size = opt_scalar(v, "icon_size")?;
    Ok(
        Patch {
            text_color,
            placeholder_color,
            background,
            border_radius,
            border_width,
            border_color,
            icon_size,
        },
    )
}

/// The patch of a state under a key that may be left out, which then sets nothing.
pub open spec fn patch_at(
    node: Option<Tree>,
    local: Map<Seq<char>, Color>,
) -> Result<Patch, Fault> {
    match node {
        None => Ok(Patch::empty()),
        Some(t) => patch_of(t, local),
    }
}

/// Reads the patch of a state under `key`, if the key is there.
pub fn decode_patch_at(v: &Node, key: &str, local: &ColorMap) -> (r: Result<Patch, Error>)
    ensures
        outcome(r) == patch_at(v@.field(key@), local@),
{
    match v.get(key) {
        None => Ok(Patch::new()),
        Some(t) => decode_patch(t, local),
    }
}

/// What a document sets of the menu and of the two states of a pick list.
#[derive(Clone, Copy, Debug, PartialEq, Eq)]
pub struct StylePatch {
    pub menu: menu::Patch,
    pub active: Patch,
    pub hovered: Patch,
}

impl StylePatch {
    /// The patches of a style that sets nothing.
    pub open spec fn empty() -> StylePatch {
        StylePatch {
            menu: menu::Patch::empty(),
            active: Patch::empty(),
            hovered: Patch::empty(),
        }
    }

    /// The patches of a style that sets nothing.
    pub fn new() -> (r: StylePatch)
        ensures
            r == StylePatch::empty(),
    {
        StylePatch {
            menu: menu::Patch::new(),
            active: Patch::new(),
            hovered: Patch::new(),
        }
    }
}

/// The patches of a style that a table writes.
///
/// The fault is that of the first field, in the order of the declaration, that is at fault.
pub open spec fn style_patch_of(
    t: Tree,
    local: Map<Seq<char>, Color>,
) -> Result<StylePatch, Fault> {
    let menu = menu::patch_at(t.field("menu"@), local);
    let active = patch_at(t.field("active"@), local);
    let hovered = patch_at(t.field("hovered"@), local);
    if !(t is Table) {
        Err(Fault::Shape)
    } else if menu is Err {
        Err(menu->Err_0)
    } else if active is Err {
        Err(active->Err_0)
    } else if hovered is Err {
        Err(hovered->Err_0)
    } else {
        Ok(
            StylePatch {
                menu: menu->Ok_0,
                active: active->Ok_0,
                hovered: hovered->Ok_0,
            },
        )
    }
}

/// Reads the patches of a style.
pub fn decode_style_patch(v: &Node, local: &ColorMap) -> (r: Result<StylePatch, Error>)
    ensures
        outcome(r) == style_patch_of(v@, local@),
{
    if v.as_table().is_none() {
        return Err(Error::Shape);
    }
    let menu = menu::decode_patch_at(v, "menu", local)?;
    let active = decode_patch_at(v, "active", local)?;
    let hovered = decode_patch_at(v, "hovered", local)?;
    Ok(StylePatch { menu, active, hovered })
}

/// The look of a pick list: that of its menu, and its own in each of its states.
#[derive(Clone, Copy, Debug, PartialEq, Eq)]
pub struct Style {
    pub menu: menu::Style,
    pub active: Appearance,
    pub hovered: Appearance,
}

/// The look from which the hovered state starts: that of the active state with a black
/// border.
pub open spec fn hovered_from(active: Appearance) -> Appearance {
    Appearance { border_color: Color::black(), ..active }
}

/// The style that the patches of a document resolve to.
///
/// The menu and the active state are their baselines under their patches. The hovered state
/// starts from the resolved active state with a black border, and lies under its own patch.
pub open spec fn resolved(patch: StylePatch) -> Style {
    let active = patch.active.over(Appearance::baseline());
    Style {
        menu: menu::resolved(patch.menu),
        active,
        hovered: patch.hovered.over(hovered_from(active)),
    }
}

impl Style {
    /// Resolves the patches of a document to a style.
    pub fn resolve(patch: &StylePatch) -> (r: Style)
        ensures
            r == resolved(*patch),
    {
        let menu = menu::Style::resolve(&patch.menu);

        let mut active = Appearance::base();
        patch.active.overwrite(&mut active);

        let mut hovered = active;
        hovered.border_color = Color::from_black();
        patch.hovered.overwrite(&mut hovered);

        Style { menu, active, hovered }
    }
}

/// The style sheet of a pick list: its layout and its style.
#[derive(Clone, Copy, Debug, PartialEq, Eq)]
pub struct StyleSheet {
    pub padding: Option<u16>,
    pub width: Option<Length>,
    pub text_size: Option<u16>,
    pub style: Option<Style>,
}

impl StyleSheet {
    /// The sheet that sets nothing: no layout, and the style of an empty patch.
    pub open spec fn plain() -> StyleSheet {
        StyleSheet {
            padding: None,
            width: None,
            text_size: None,
            style: Some(resolved(StylePatch::empty())),
        }
    }
}

/// The sheet that a table writes.
///
/// The fields of the style stand in the same table as those of the layout. The fault is
/// that of the first field, in the order of the declaration, that is at fault.
pub open spec fn sheet_of(t: Tree, local: Map<Seq<char>, Color>) -> Result<StyleSheet, Fault> {
    let padding = opt_u16_of(t.field("padding"@));
    let width = opt_length_of(t.field("width"@));
    let text_size = opt_u16_of(t.field("text_size"@));
    let style = style_patch_of(t, local);
    if !(t is Table) {
        Err(Fault::Shape)
    } else if padding is Err {
        Err(padding->Err_0)
    } else if width is Err {
        Err(width->Err_0)
    } else if text_size is Err {
        Err(text_size->Err_0)
    } else if style is Err {
        Err(style->Err_0)
    } else {
        Ok(
            StyleSheet {
                padding: padding->Ok_0,
                width: width->Ok_0,
                text_size: text_size->Ok_0,
                style: Some(resolved(style->Ok_0)),
            },
        )
    }
}

/// Reads a sheet.
pub fn decode_sheet(v: &Node, local: &ColorMap) -> (r: Result<StyleSheet, Error>)
    ensures
        outcome(r) == sheet_of(v@, local@),
{
    if v.as_table().is_none() {
        return Err(Error::Shape);
    }
    let padding = opt_size16(v, "padding")?;
    let width = opt_length(v, "width")?;
    let text_size = opt_size16(v, "text_size")?;
    let style = decode_style_patch(v, local)?;
    Ok(StyleSheet { padding, width, text_size, style: Some(Style::resolve(&style)) })
}

impl Sheet for StyleSheet {
    open spec fn of(t: Tree, local: Map<Seq<char>, Color>) -> Result<StyleSheet, Fault> {
        sheet_of(t, local)
    }

    open spec fn baseline() -> StyleSheet {
        StyleSheet::plain()
    }

    fn decode(v: &Node, local: &ColorMap) -> (r: Result<StyleSheet, Error>) {
        decode_sheet(v, local)
    }

    fn base() -> (r: StyleSheet) {
        StyleSheet {
            padding: None,
            width: None,
            text_size: None,
            style: Some(Style::resolve(&StylePatch::new())),
        }
    }

    proof fn lemma_empty_is_baseline(local: Map<Seq<char>, Color>) {
        lemma_empty_table(local);
    }

    proof fn lemma_fault_is_of_document(t: Tree, local: Map<Seq<char>, Color>) {
    }
}

/// The style sheets of pick lists, by the names of their variants.
pub type PickList = SheetMap<StyleSheet>;

/// A table without entries writes the sheet that sets nothing.
pub proof fn lemma_empty_table(local: Map<Seq<char>, Color>)
    ensures
        sheet_of(Tree::empty_table(), local) == Ok::<StyleSheet, Fault>(StyleSheet::plain()),
{
    reveal(lookup);
    let t = Tree::empty_table();
    assert(menu::patch_at(t.field("menu"@), local) == Ok::<menu::Patch, Fault>(
        menu::Patch::empty(),
    ));
    assert(patch_at(t.field("active"@), local) == Ok::<Patch, Fault>(Patch::empty()));
    assert(style_patch_of(t, local) == Ok::<StylePatch, Fault>(StylePatch::empty()));
}

} // verus!
