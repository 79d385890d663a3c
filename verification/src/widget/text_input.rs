//! Text inputs.

use crate::color::{
    opt_background, opt_background_of, opt_color, opt_color_of, Background, Color, ColorMap,
};
use crate::decode::{opt_scalar, opt_scalar_of, opt_size16, opt_u16_of};
use crate::error::{outcome, Error, Fault};
use crate::layout::{opt_length, opt_length_of, Length};
use crate::merge::{merge, overlay};
use crate::node::{lookup, Node, Tree};
use crate::number::Scalar;
use crate::sheets::{Sheet, SheetMap};
use vstd::prelude::*;

verus! {

/// How a text input looks in one of its states.
#[derive(Clone, Copy, Debug, PartialEq, Eq)]
pub struct Appearance {
    pub background: Background,
    pub border_radius: Scalar,
    pub border_width: Scalar,
    pub border_color: Color,
}

impl Appearance {
    /// The look of a text input of which nothing is said: white, with a rounded grey border of
    /// one unit.
    pub open spec fn baseline() -> Appearance {
        Appearance {
            background: Background::of(Color::white()),
            border_radius: Scalar::Integer(5),
            border_width: Scalar::Integer(1),
            border_color: Color::gray(70),
        }
    }

    /// The look of a text input of which nothing is said.
    pub fn base() -> (r: Appearance)
        ensures
            r == Appearance::baseline(),
    {
        Appearance {
            background: Background::solid(Color::from_white()),
            border_radius: Scalar::Integer(5),
            border_width: Scalar::Integer(1),
            border_color: Color::from_gray(70),
        }
    }
}

/// What a document sets of the look of one state.
#[derive(Clone, Copy, Debug, PartialEq, Eq)]
pub struct Patch {
    pub background: Option<Background>,
    pub border_radius: Option<Scalar>,
    pub border_width: Option<Scalar>,
    pub border_color: Option<Color>,
}

impl Patch {
    /// The patch of a state that sets nothing.
    pub open spec fn empty() -> Patch {
        Patch {
            background: None,
            border_radius: None,
            border_width: None,
            border_color: None,
        }
    }

    /// The look with what this sets laid over it.
    pub open spec fn over(self, base: Appearance) -> Appearance {
        Appearance {
            background: overlay(base.background, self.background),
            border_radius: overlay(base.border_radius, self.border_radius),
            border_width: overlay(base.border_width, self.border_width),
            border_color: overlay(base.border_color, self.border_color),
        }
    }

    /// A patch that sets nothing leaves what lies under it as it is.
    pub proof fn lemma_empty_keeps(base: Appearance)
        ensures
            Patch::empty().over(base) == base,
    {
    }

    /// The patch of a state that sets nothing.
    pub fn new() -> (r: Patch)
        ensures
            r == Patch::empty(),
    {
        Patch {
            background: None,
            border_radius: None,
            border_width: None,
            border_color: None,
        }
    }

    /// Lays what this sets over `style`.
    pub fn overwrite(&self, style: &mut Appearance)
        ensures
            *final(style) == self.over(*old(style)),
    {
        style.background = merge(style.background, self.background);
        style.border_radius = merge(style.border_radius, self.border_radius);
        style.border_width = merge(style.border_width, self.border_width);
        style.border_color = merge(style.border_color, self.border_color);
    }
}

/// The patch of a state that a table writes.
///
/// The fault is that of the first field, in the order of the declaration, that is at fault.
pub open spec fn patch_of(t: Tree, local: Map<Seq<char>, Color>) -> Result<Patch, Fault> {
    let background = opt_background_of(t.field("background"@), local);
    let border_radius = opt_scalar_of(t.field("border_radius"@));
    let border_width = opt_scalar_of(t.field("border_width"@));
    let border_color = opt_color_of(t.field("border_color"@), local);
    if !(t is Table) {
        Err(Fault::Shape)
    } else if background is Err {
        Err(background->Err_0)
    } else if border_radius is Err {
        Err(border_radius->Err_0)
    } else if border_width is Err {
        Err(border_width->Err_0)
    } else if border_color is Err {
        Err(border_color->Err_0)
    } else {
        Ok(
            Patch {
                background: background->Ok_0,
                border_radius: border_radius->Ok_0,
                border_width: border_width->Ok_0,
                border_color: border_color->Ok_0,
            },
        )
    }
}

/// Reads the patch of a state.
pub fn decode_patch(v: &Node, local: &ColorMap) -> (r: Result<Patch, Error>)
    ensures
        outcome(r) == patch_of(v@, local@),
{
    if v.as_table().is_none() {
        return Err(Error::Shape);
    }
    let background = opt_background(v, "background", local)?;
    let border_radius = opt_scalar(v, "border_radius")?;
    let border_width = opt_scalar(v, "border_width")?;
    let border_color = opt_color(v, "border_color", local)?;
    Ok(Patch { background, border_radius, border_width, border_color })
}

/// The patch of a state under a key that may be left out, which then sets nothing.
pub open spec fn patch_at(
    node: Option<Tree>,
    local: Map<Seq<char>, Color>,
) -> Result<Patch, Fault> {
    match node {
        None => Ok(Patch::empty()),
        Some(t) => patch_of(t, local),
    }
}

/// Reads the patch of a state under `key`, if the key is there.
pub fn decode_patch_at(v: &Node, key: &str, local: &ColorMap) -> (r: Result<Patch, Error>)
    ensures
        outcome(r) == patch_at(v@.field(key@), local@),
{
    match v.get(key) {
        None => Ok(Patch::new()),
        Some(t) => decode_patch(t, local),
    }
}

/// What a document sets of the three states of a text input and of its three colours.
#[derive(Clone, Copy, Debug, PartialEq, Eq)]
pub struct StylePatch {
    pub active: Patch,
    pub focused: Patch,
    pub hovered: Patch,
    pub placeholder_color: Option<Color>,
    pub value_color: Option<Color>,
    pub selection_color: Option<Color>,
}

impl StylePatch {
    /// The patches of a style that sets nothing.
    pub open spec fn empty() -> StylePatch {
        StylePatch {
            active: Patch::empty(),
            focused: Patch::empty(),
            hovered: Patch::empty(),
            placeholder_color: None,
            value_color: None,
            selection_color: None,
        }
    }

    /// The patches of a style that sets nothing.
    pub fn new() -> (r: StylePatch)
        ensures
            r == StylePatch::empty(),
    {
        StylePatch {
            active: Patch::new(),
            focused: Patch::new(),
            hovered: Patch::new(),
            placeholder_color: None,
            value_color: None,
            selection_color: None,
        }
    }
}

/// The patches of a style that a table writes.
///
/// The fault is that of the first field, in the order of the declaration, that is at fault.
pub open spec fn style_patch_of(
    t: Tree,
    local: Map<Seq<char>, Color>,
) -> Result<StylePatch, Fault> {
    let active = patch_at(t.field("active"@), local);
    let focused = patch_at(t.field("focused"@), local);
    let hovered = patch_at(t.field("hovered"@), local);
    let placeholder_color = opt_color_of(t.field("placeholder_color"@), local);
    let value_color = opt_color_of(t.field("value_color"@), local);
    let selection_color = opt_color_of(t.field("selection_color"@), local);
    if !(t is Table) {
        Err(Fault::Shape)
    } else if active is Err {
        Err(active->Err_0)
    } else if focused is Err {
        Err(focused->Err_0)
    } else if hovered is Err {
        Err(hovered->Err_0)
    } else if placeholder_color is Err {
        Err(placeholder_color->Err_0)
    } else if value_color is Err {
        Err(value_color->Err_0)
    } else if selection_color is Err {
        Err(selection_color->Err_0)
    } else {
        Ok(
            StylePatch {
                active: active->Ok_0,
                focused: focused->Ok_0,
                hovered: hovered->Ok_0,
                placeholder_color: placeholder_color->Ok_0,
                value_color: value_color->Ok_0,
                selection_color: selection_color->Ok_0,
            },
        )
    }
}

/// Reads the patches of a style.
pub fn decode_style_patch(v: &Node, local: &ColorMap) -> (r: Result<StylePatch, Error>)
    ensures
        outcome(r) == style_patch_of(v@, local@),
{
    if v.as_table().is_none() {
        return Err(Error::Shape);
    }
    let active = decode_patch_at(v, "active", local)?;
    let focused = decode_patch_at(v, "focused", local)?;
    let hovered = decode_patch_at(v, "hovered", local)?;
    let placeholder_color = opt_color(v, "placeholder_color", local)?;
    let value_color = opt_color(v, "value_color", local)?;
    let selection_color = opt_color(v, "selection_color", local)?;
    Ok(StylePatch { active, focused, hovered, placeholder_color, value_color, selection_color })
}

/// The look of a text input in each of its states, and the colours of its text.
#[derive(Clone, Copy, Debug, PartialEq, Eq)]
pub struct Style {
    pub active: Appearance,
    pub focused: Appearance,
    pub hovered: Appearance,
    pub placeholder_color: Color,
    pub value_color: Color,
    pub selection_color: Color,
}

/// The look from which the focused state starts: that of the active state with a darker
/// border.
pub open spec fn focused_from(active: Appearance) -> Appearance {
    Appearance { border_color: Color::gray(50), ..active }
}

/// The style that the patches of a document resolve to.
///
/// The active state is the baseline under its patch. The focused state starts from the
/// resolved active state with a darker border, and the hovered state from the resolved
/// focused state; each lies under its own patch. A colour that the document leaves out is
/// light grey for the placeholder, dark grey for the value and pale blue for the selection.
pub open spec fn resolved(patch: StylePatch) -> Style {
    let active = patch.active.over(Appearance::baseline());
    let focused = patch.focused.over(focused_from(active));
    Style {
        active,
        focused,
        hovered: patch.hovered.over(focused),
        placeholder_color: overlay(Color::gray(70), patch.placeholder_color),
        value_color: overlay(Color::gray(30), patch.value_color),
        selection_color: overlay(
            Color::rgb(Scalar::Ratio(80, 100), Scalar::Ratio(80, 100), Scalar::Integer(1)),
            patch.selection_color,
        ),
    }
}

impl Style {
    /// Resolves the patches of a document to a style.
    pub fn resolve(patch: &StylePatch) -> (r: Style)
        ensures
            r == resolved(*patch),
    {
        let mut active = Appearance::base();
        patch.active.overwrite(&mut active);

        let mut focused = active;
        focused.border_color = Color::from_gray(50);
        patch.focused.overwrite(&mut focused);

        let mut hovered = focused;
        patch.hovered.overwrite(&mut hovered);

        let placeholder_color = merge(Color::from_gray(70), patch.placeholder_color);
        let value_color = merge(Color::from_gray(30), patch.value_color);
        let selection_color = merge(
            Color::from_rgb(Scalar::Ratio(80, 100), Scalar::Ratio(80, 100), Scalar::Integer(1)),
            patch.selection_color,
        );

        Style { active, focused, hovered, placeholder_color, value_color, selection_color }
    }
}

/// The style sheet of a text input: its layout and its style.
#[derive(Clone, Copy, Debug, PartialEq, Eq)]
pub struct StyleSheet {
    pub width: Option<Length>,
    pub padding: Option<u16>,
    pub size: Option<u16>,
    pub style: Option<Style>,
}

impl StyleSheet {
    /// The sheet that sets nothing: no layout, and the style of an empty patch.
    pub open spec fn plain() -> StyleSheet {
        StyleSheet {
            width: None,
            padding: None,
            size: None,
            style: Some(resolved(StylePatch::empty())),
        }
    }
}

/// The sheet that a table writes.
///
/// The fields of the style stand in the same table as those of the layout. The fault is
/// that of the first field, in the order of the declaration, that is at fault.
pub open spec fn sheet_of(t: Tree, local: Map<Seq<char>, Color>) -> Result<StyleSheet, Fault> {
    let width = opt_length_of(t.field("width"@));
    let padding = opt_u16_of(t.field("padding"@));
    let size = opt_u16_of(t.field("size"@));
    let style = style_patch_of(t, local);
    if !(t is Table) {
        Err(Fault::Shape)
    } else if width is Err {
        Err(width->Err_0)
    } else if padding is Err {
        Err(padding->Err_0)
    } else if size is Err {
        Err(size->Err_0)
    } else if style is Err {
        Err(style->Err_0)
    } else {
        Ok(
            StyleSheet {
                width: width->Ok_0,
                padding: padding->Ok_0,
                size: size->Ok_0,
                style: Some(resolved(style->Ok_0)),
            },
        )
    }
}

/// Reads a sheet.
pub fn decode_sheet(v: &Node, local: &ColorMap) -> (r: Result<StyleSheet, Error>)
    ensures
        outcome(r) == sheet_of(v@, local@),
{
    if v.as_table().is_none() {
        return Err(Error::Shape);
    }
    let width = opt_length(v, "width")?;
    let padding = opt_size16(v, "padding")?;
    let size = opt_size16(v, "size")?;
    let style = decode_style_patch(v, local)?;
    Ok(StyleSheet { width, padding, size, style: Some(Style::resolve(&style)) })
}

impl Sheet for StyleSheet {
    open spec fn of(t: Tree, local: Map<Seq<char>, Color>) -> Result<StyleSheet, Fault> {
        sheet_of(t, local)
    }

    open spec fn baseline() -> StyleSheet {
        StyleSheet::plain()
    }

    fn decode(v: &Node, local: &ColorMap) -> (r: Result<StyleSheet, Error>) {
        decode_sheet(v, local)
    }

    fn base() -> (r: StyleSheet) {
        StyleSheet {
            width: None,
            padding: None,
            size: None,
            style: Some(Style::resolve(&StylePatch::new())),
        }
    }

    proof fn lemma_empty_is_baseline(local: Map<Seq<char>, Color>) {
        lemma_empty_table(local);
    }

    proof fn lemma_fault_is_of_document(t: Tree, local: Map<Seq<char>, Color>) {
    }
}

/// The style sheets of text inputs, by the names of their variants.
pub type TextInput = SheetMap<StyleSheet>;

/// A table without entries writes the sheet that sets nothing.
pub proof fn lemma_empty_table(local: Map<Seq<char>, Color>)
    ensures
        sheet_of(Tree::empty_table(), local) == Ok::<StyleSheet, Fault>(StyleSheet::plain()),
{
    reveal(lookup);
    let t = Tree::empty_table();
    assert(patch_at(t.field("active"@), local) == Ok::<Patch, Fault>(Patch::empty()));
    assert(style_patch_of(t, local) == Ok::<StylePatch, Fault>(StylePatch::empty()));
}

} // verus!
