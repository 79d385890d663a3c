//! Checkboxes.

use crate::color::{
    opt_background, opt_background_of, opt_color, opt_color_of, Background, Color, ColorMap,
};
use crate::decode::{opt_scalar, opt_scalar_of, opt_size16, opt_u16_of};
use crate::error::{outcome, Error, Fault};
use crate::layout::{opt_length, opt_length_of, Length};
use crate::merge::{merge, merge_opt, overlay, overlay_opt};
use crate::node::{lookup, Node, Tree};
use crate::number::Scalar;
use crate::sheets::{Sheet, SheetMap};
use vstd::prelude::*;

verus! {

/// How a checkbox looks in one of its states.
#[derive(Clone, Copy, Debug, PartialEq, Eq)]
pub struct Appearance {
    pub background: Background,
    pub checkmark_color: Color,
    pub border_radius: Scalar,
    pub border_width: Scalar,
    pub border_color: Color,
    pub text_color: Option<Color>,
}

impl Appearance {
    /// The look of an unchecked checkbox of which nothing is said: a light filling, a dark
    /// checkmark, a rounded grey border of one unit, and the text colour of its surroundings.
    pub open spec fn baseline() -> Appearance {
        Appearance {
            background: Background::of(Color::gray(95)),
            checkmark_color: Color::gray(30),
            border_radius: Scalar::Integer(5),
            border_width: Scalar::Integer(1),
            border_color: Color::gray(60),
            text_color: None,
        }
    }

    /// The look of an unchecked checkbox of which nothing is said.
    pub fn base() -> (r: Appearance)
        ensures
            r == Appearance::baseline(),
    {
        Appearance {
            background: Background::solid(Color::from_gray(95)),
            checkmark_color: Color::from_gray(30),
            border_radius: Scalar::Integer(5),
            border_width: Scalar::Integer(1),
            border_color: Color::from_gray(60),
            text_color: None,
        }
    }
}

/// What a document sets of one look of a checkbox.
#[derive(Clone, Copy, Debug, PartialEq, Eq)]
pub struct Patch {
    pub background: Option<Background>,
    pub checkmark_color: Option<Color>,
    pub border_radius: Option<Scalar>,
    pub border_width: Option<Scalar>,
    pub border_color: Option<Color>,
    pub text_color: Option<Color>,
}

impl Patch {
    /// The patch of a look that sets nothing.
    pub open spec fn empty() -> Patch {
        Patch {
            background: None,
            checkmark_color: None,
            border_radius: None,
            border_width: None,
            border_color: None,
            text_color: None,
        }
    }

    /// The look with what this sets laid over it.
    pub open spec fn over(self, base: Appearance) -> Appearance {
        Appearance {
            background: overlay(base.background, self.background),
            checkmark_color: overlay(base.checkmark_color, self.checkmark_color),
            border_radius: overlay(base.border_radius, self.border_radius),
            border_width: overlay(base.border_width, self.border_width),
            border_color: overlay(base.border_color, self.border_color),
            text_color: overlay_opt(base.text_color, self.text_color),
        }
    }

    /// A patch that sets nothing leaves what lies under it as it is.
    pub proof fn lemma_empty_keeps(base: Appearance)
        ensures
            Patch::empty().over(base) == base,
    {
    }

    /// The patch of a look that sets nothing.
    pub fn new() -> (r: Patch)
        ensures
            r == Patch::empty(),
    {
        Patch {
            background: None,
            checkmark_color: None,
            border_radius: None,
            border_width: None,
            border_color: None,
            text_color: None,
        }
    }

    /// Lays what this sets over `style`.
    pub fn overwrite(&self, style: &mut Appearance)
        ensures
            *final(style) == self.over(*old(style)),
    {
        style.background = merge(style.background, self.background);
        style.checkmark_color = merge(style.checkmark_color, self.checkmark_color);
        style.border_radius = merge(style.border_radius, self.border_radius);
        style.border_width = merge(style.border_width, self.border_width);
        style.border_color = merge(style.border_color, self.border_color);
        style.text_color = merge_opt(style.text_color, self.text_color);
    }
}

/// The patch of a look that a table writes.
///
/// The fault is that of the first field, in the order of the declaration, that is at fault.
pub open spec fn patch_of(t: Tree, local: Map<Seq<char>, Color>) -> Result<Patch, Fault> {
    let background = opt_background_of(t.field("background"@), local);
    let checkmark_color = opt_color_of(t.field("checkmark_color"@), local);
    let border_radius = opt_scalar_of(t.field("border_radius"@));
    let border_width = opt_scalar_of(t.field("border_width"@));
    let border_color = opt_color_of(t.field("border_color"@), local);
    let text_color = opt_color_of(t.field("text_color"@), local);
    if !(t is Table) {
        Err(Fault::Shape)
    } else if background is Err {
        Err(background->Err_0)
    } else if checkmark_color is Err {
        Err(checkmark_color->Err_0)
    } else if border_radius is Err {
        Err(border_radius->Err_0)
    } else if border_width is Err {
        Err(border_width->Err_0)
    } else if border_color is Err {
        Err(border_color->Err_0)
    } else if text_color is Err {
        Err(text_color->Err_0)
    } else {
        Ok(
            Patch {
                background: background->Ok_0,
                checkmark_color: checkmark_color->Ok_0,
                border_radius: border_radius->Ok_0,
                border_width: border_width->Ok_0,
                border_color: border_color->Ok_0,
                text_color: text_color->Ok_0,
            },
        )
    }
}

/// Reads the patch of a look.
pub fn decode_patch(v: &Node, local: &ColorMap) -> (r: Result<Patch, Error>)
    ensures
        outcome(r) == patch_of(v@, local@),
{
    if v.as_table().is_none() {
        return Err(Error::Shape);
    }
    let background = opt_background(v, "background", local)?;
    let checkmark_color = opt_color(v, "checkmark_color", local)?;
    let border_radius = opt_scalar(v, "border_radius")?;
    let border_width = opt_scalar(v, "border_width")?;
    let border_color = opt_color(v, "border_color", local)?;
    let text_color = opt_color(v, "text_color", local)?;
    Ok(Patch { background, checkmark_color, border_radius, border_width, border_color, text_color })
}

/// The patch of a look under a key that may be left out, which then sets nothing.
pub open spec fn patch_at(
    node: Option<Tree>,
    local: Map<Seq<char>, Color>,
) -> Result<Patch, Fault> {
    match node {
        None => Ok(Patch::empty()),
        Some(t) => patch_of(t, local),
    }
}

/// Reads the patch of a look under `key`, if the key is there.
pub fn decode_patch_at(v: &Node, key: &str, local: &ColorMap) -> (r: Result<Patch, Error>)
    ensures
        outcome(r) == patch_at(v@.field(key@), local@),
{
    match v.get(key) {
        None => Ok(Patch::new()),
        Some(t) => decode_patch(t, local),
    }
}

/// What a document sets of one state: of the unchecked box, in the table of the state
/// itself, and of the checked box, under the key `checked`.
#[derive(Clone, Copy, Debug, PartialEq, Eq)]
pub struct StatePatch {
    pub plain: Patch,
    pub checked: Patch,
}

impl StatePatch {
    /// The patches of a state that sets nothing.
    pub open spec fn empty() -> StatePatch {
        StatePatch {
            plain: Patch::empty(),
            checked: Patch::empty(),
        }
    }

    /// The patches of a state that sets nothing.
    pub fn new() -> (r: StatePatch)
        ensures
            r == StatePatch::empty(),
    {
        StatePatch {
            plain: Patch::new(),
            checked: Patch::new(),
        }
    }
}

/// The patches of a state that a table writes.
///
/// The fault is that of the first field, in the order of the declaration, that is at fault.
pub open spec fn state_patch_of(
    t: Tree,
    local: Map<Seq<char>, Color>,
) -> Result<StatePatch, Fault> {
    let plain = patch_of(t, local);
    let checked = patch_at(t.field("checked"@), local);
    if !(t is Table) {
        Err(Fault::Shape)
    } else if plain is Err {
        Err(plain->Err_0)
    } else if checked is Err {
        Err(checked->Err_0)
    } else {
        Ok(
            StatePatch {
                plain: plain->Ok_0,
                checked: checked->Ok_0,
            },
        )
    }
}

/// Reads the patches of a state.
pub fn decode_state_patch(v: &Node, local: &ColorMap) -> (r: Result<StatePatch, Error>)
    ensures
        outcome(r) == state_patch_of(v@, local@),
{
    if v.as_table().is_none() {
        return Err(Error::Shape);
    }
    let plain = decode_patch(v, local)?;
    let checked = decode_patch_at(v, "checked", local)?;
    Ok(StatePatch { plain, checked })
}

/// The patches of a state under a key that may be left out, which then sets nothing.
pub open spec fn state_patch_at(
    node: Option<Tree>,
    local: Map<Seq<char>, Color>,
) -> Result<StatePatch, Fault> {
    match node {
        None => Ok(StatePatch::empty()),
        Some(t) => state_patch_of(t, local),
    }
}

/// Reads the patches of a state under `key`, if the key is there.
pub fn decode_state_patch_at(
    v: &Node,
    key: &str,
    local: &ColorMap,
) -> (r: Result<StatePatch, Error>)
    ensures
        outcome(r) == state_patch_at(v@.field(key@), local@),
{
    match v.get(key) {
        None => Ok(StatePatch::new()),
        Some(t) => decode_state_patch(t, local),
    }
}

/// What a document sets of the two states of a checkbox.
#[derive(Clone, Copy, Debug, PartialEq, Eq)]
pub struct StylePatch {
    pub active: StatePatch,
    pub hovered: StatePatch,
}

impl StylePatch {
    /// The patches of a style that sets nothing.
    pub open spec fn empty() -> StylePatch {
        StylePatch {
            active: StatePatch::empty(),
            hovered: StatePatch::empty(),
        }
    }

    /// The patches of a style that sets nothing.
    pub fn new() -> (r: StylePatch)
        ensures
            r == StylePatch::empty(),
    {
        StylePatch {
            active: StatePatch::new(),
            hovered: StatePatch::new(),
        }
    }
}

/// The patches of a style that a table writes.
///
/// The fault is that of the first field, in the order of the declaration, that is at fault.
pub open spec fn style_patch_of(
    t: Tree,
    local: Map<Seq<char>, Color>,
) -> Result<StylePatch, Fault> {
    let active = state_patch_at(t.field("active"@), local);
    let hovered = state_patch_at(t.field("hovered"@), local);
    if !(t is Table) {
        Err(Fault::Shape)
    } else if active is Err {
        Err(active->Err_0)
    } else if hovered is Err {
        Err(hovered->Err_0)
    } else {
        Ok(
            StylePatch {
                active: active->Ok_0,
                hovered: hovered->Ok_0,
            },
        )
    }
}

/// Reads the patches of a style.
pub fn decode_style_patch(v: &Node, local: &ColorMap) -> (r: Result<StylePatch, Error>)
    ensures
        outcome(r) == style_patch_of(v@, local@),
{
    if v.as_table().is_none() {
        return Err(Error::Shape);
    }
    let active = decode_state_patch_at(v, "active", local)?;
    let hovered = decode_state_patch_at(v, "hovered", local)?;
    Ok(StylePatch { active, hovered })
}

/// The look of a checkbox in each of its states, unchecked and checked.
#[derive(Clone, Copy, Debug, PartialEq, Eq)]
pub struct Style {
    pub active: Appearance,
    pub active_checked: Appearance,
    pub hovered: Appearance,
    pub hovered_checked: Appearance,
}

/// The look from which a hovered state starts: that of the state at rest on a slightly
/// darker filling.
pub open spec fn hovered_from(rest: Appearance) -> Appearance {
    Appearance { background: Background::of(Color::gray(90)), ..rest }
}

/// The style that the patches of a document resolve to.
///
/// The active unchecked look is the baseline under its patch, and the active checked look is
/// that under the patch of the checked box. Each hovered look starts from the active look of
/// the same box on a darker filling. Over both lies the patch of the hovered state, and over
/// the checked one also the patch of the hovered checked box.
pub open spec fn resolved(patch: StylePatch) -> Style {
    let active = patch.active.plain.over(Appearance::baseline());
    let active_checked = patch.active.checked.over(active);
    Style {
        active,
        active_checked,
        hovered: patch.hovered.plain.over(hovered_from(active)),
        hovered_checked: patch.hovered.checked.over(
            patch.hovered.plain.over(hovered_from(active_checked)),
        ),
    }
}

impl Style {
    /// Resolves the patches of a document to a style.
    pub fn resolve(patch: &StylePatch) -> (r: Style)
        ensures
            r == resolved(*patch),
    {
        let mut active = Appearance::base();
        patch.active.plain.overwrite(&mut active);
        let mut active_checked = active;
        patch.active.checked.overwrite(&mut active_checked);

        let mut hovered = active;
        hovered.background = Background::solid(Color::from_gray(90));
        let mut hovered_checked = active_checked;
        hovered_checked.background = Background::solid(Color::from_gray(90));
        patch.hovered.plain.overwrite(&mut hovered);
        patch.hovered.plain.overwrite(&mut hovered_checked);
        patch.hovered.checked.overwrite(&mut hovered_checked);

        Style { active, active_checked, hovered, hovered_checked }
    }

    /// The look of the box at rest.
    pub fn active(&self, is_checked: bool) -> (r: Appearance)
        ensures
            r == if is_checked {
                self.active_checked
            } else {
                self.active
            },
    {
        if is_checked {
            self.active_checked
        } else {
            self.active
        }
    }

    /// The look of the box under the pointer.
    pub fn hovered(&self, is_checked: bool) -> (r: Appearance)
        ensures
            r == if is_checked {
                self.hovered_checked
            } else {
                self.hovered
            },
    {
        if is_checked {
            self.hovered_checked
        } else {
            self.hovered
        }
    }
}

/// The style sheet of a checkbox: its layout and its style.
#[derive(Clone, Copy, Debug, PartialEq, Eq)]
pub struct StyleSheet {
    pub width: Option<Length>,
    pub size: Option<u16>,
    pub spacing: Option<u16>,
    pub text_size: Option<u16>,
    pub style: Option<Style>,
}

impl StyleSheet {
    /// The sheet that sets nothing: no layout, and the style of an empty patch.
    pub open spec fn plain() -> StyleSheet {
        StyleSheet {
            width: None,
            size: None,
            spacing: None,
            text_size: None,
            style: Some(resolved(StylePatch::empty())),
        }
    }
}

/// The sheet that a table writes.
///
/// The fields of the style stand in the same table as those of the layout. The fault is
/// that of the first field, in the order of the declaration, that is at fault.
pub open spec fn sheet_of(t: Tree, local: Map<Seq<char>, Color>) -> Result<StyleSheet, Fault> {
    let width = opt_length_of(t.field("width"@));
    let size = opt_u16_of(t.field("size"@));
    let spacing = opt_u16_of(t.field("spacing"@));
    let text_size = opt_u16_of(t.field("text_size"@));
    let style = style_patch_of(t, local);
    if !(t is Table) {
        Err(Fault::Shape)
    } else if width is Err {
        Err(width->Err_0)
    } else if size is Err {
        Err(size->Err_0)
    } else if spacing is Err {
        Err(spacing->Err_0)
    } else if text_size is Err {
        Err(text_size->Err_0)
    } else if style is Err {
        Err(style->Err_0)
    } else {
        Ok(
            StyleSheet {
                width: width->Ok_0,
                size: size->Ok_0,
                spacing: spacing->Ok_0,
                text_size: text_size->Ok_0,
                style: Some(resolved(style->Ok_0)),
            },
        )
    }
}

/// Reads a sheet.
pub fn decode_sheet(v: &Node, local: &ColorMap) -> (r: Result<StyleSheet, Error>)
    ensures
        outcome(r) == sheet_of(v@, local@),
{
    if v.as_table().is_none() {
        return Err(Error::Shape);
    }
    let width = opt_length(v, "width")?;
    let size = opt_size16(v, "size")?;
    let spacing = opt_size16(v, "spacing")?;
    let text_size = opt_size16(v, "text_size")?;
    let style = decode_style_patch(v, local)?;
    Ok(StyleSheet { width, size, spacing, text_size, style: Some(Style::resolve(&style)) })
}

impl Sheet for StyleSheet {
    open spec fn of(t: Tree, local: Map<Seq<char>, Color>) -> Result<StyleSheet, Fault> {
        sheet_of(t, local)
    }

    open spec fn baseline() -> StyleSheet {
        StyleSheet::plain()
    }

    fn decode(v: &Node, local: &ColorMap) -> (r: Result<StyleSheet, Error>) {
        decode_sheet(v, local)
    }

    fn base() -> (r: StyleSheet) {
        StyleSheet {
            width: None,
            size: None,
            spacing: None,
            text_size: None,
            style: Some(Style::resolve(&StylePatch::new())),
        }
    }

    proof fn lemma_empty_is_baseline(local: Map<Seq<char>, Color>) {
        lemma_empty_table(local);
    }

    proof fn lemma_fault_is_of_document(t: Tree, local: Map<Seq<char>, Color>) {
    }
}

/// The style sheets of checkboxes, by the names of their variants.
pub type Checkbox = SheetMap<StyleSheet>;

/// A table without entries writes the sheet that sets nothing.
pub proof fn lemma_empty_table(local: Map<Seq<char>, Color>)
    ensures
        sheet_of(Tree::empty_table(), local) == Ok::<StyleSheet, Fault>(StyleSheet::plain()),
{
    reveal(lookup);
    let t = Tree::empty_table();
    assert(patch_of(t, local) == Ok::<Patch, Fault>(Patch::empty()));
    assert(state_patch_at(t.field("active"@), local) == Ok::<StatePatch, Fault>(
        StatePatch::empty(),
    ));
    assert(style_patch_of(t, local) == Ok::<StylePatch, Fault>(StylePatch::empty()));
}

} // verus!
