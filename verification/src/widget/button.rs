//! Buttons.

use crate::color::{
    lemma_color_of_is_plain, lemma_fading_halves, opt_background, opt_background_of, opt_color,
    opt_color_of, plain_map, Background, Color, ColorMap,
};
use crate::decode::{opt_scalar, opt_scalar_of, opt_size16, opt_u16_of};
use crate::error::{outcome, Error, Fault};
use crate::layout::{
    lemma_vector_of_is_unmoved, opt_length, opt_length_of, opt_vector, opt_vector_of, Length,
    Vector,
};
use crate::merge::{merge, merge_opt, overlay, overlay_opt};
use crate::node::{lookup, Node, Tree};
use crate::number::{half, one_more, Scalar};
use crate::sheets::{Sheet, SheetMap};
use vstd::prelude::*;

verus! {

/// How a button looks in one of its states.
#[derive(Clone, Copy, Debug, PartialEq, Eq)]
pub struct Appearance {
    pub shadow_offset: Vector,
    pub background: Option<Background>,
    pub border_radius: Scalar,
    pub border_width: Scalar,
    pub border_color: Color,
    pub text_color: Color,
}

impl Appearance {
    /// The look of a button of which nothing is said: no shadow, no filling, no border, and
    /// black text.
    pub open spec fn baseline() -> Appearance {
        Appearance {
            shadow_offset: Vector::zero(),
            background: None,
            border_radius: Scalar::Integer(0),
            border_width: Scalar::Integer(0),
            border_color: Color::transparent(),
            text_color: Color::black(),
        }
    }

    /// The look of a button of which nothing is said.
    pub fn base() -> (r: Appearance)
        ensures
            r == Appearance::baseline(),
    {
        Appearance {
            shadow_offset: Vector::origin(),
            background: None,
            border_radius: Scalar::Integer(0),
            border_width: Scalar::Integer(0),
            border_color: Color::from_transparent(),
            text_color: Color::from_black(),
        }
    }
}

/// What a document sets of the look of one state.
#[derive(Clone, Copy, Debug, PartialEq, Eq)]
pub struct Patch {
    pub shadow_offset: Option<Vector>,
    pub background: Option<Background>,
    pub border_radius: Option<Scalar>,
    pub border_width: Option<Scalar>,
    pub border_color: Option<Color>,
    pub text_color: Option<Color>,
}

impl Patch {
    /// The patch of a state that sets nothing.
    pub open spec fn empty() -> Patch {
        Patch {
            shadow_offset: None,
            background: None,
            border_radius: None,
            border_width: None,
            border_color: None,
            text_color: None,
        }
    }

    /// The look with what this sets laid over it.
    pub open spec fn over(self, base: Appearance) -> Appearance {
        Appearance {
            shadow_offset: overlay(base.shadow_offset, self.shadow_offset),
            background: overlay_opt(base.background, self.background),
            border_radius: overlay(base.border_radius, self.border_radius),
            border_width: overlay(base.border_width, self.border_width),
            border_color: overlay(base.border_color, self.border_color),
            text_color: overlay(base.text_color, self.text_color),
        }
    }

    /// A patch that sets nothing leaves what lies under it as it is.
    pub proof fn lemma_empty_keeps(base: Appearance)
        ensures
            Patch::empty().over(base) == base,
    {
    }

    /// The patch of a state that sets nothing.
    pub fn new() -> (r: Patch)
        ensures
            r == Patch::empty(),
    {
        Patch {
            shadow_offset: None,
            background: None,
            border_radius: None,
            border_width: None,
            border_color: None,
            text_color: None,
        }
    }

    /// Lays what this sets over `style`.
    pub fn overwrite(&self, style: &mut Appearance)
        ensures
            *final(style) == self.over(*old(style)),
    {
        style.shadow_offset = merge(style.shadow_offset, self.shadow_offset);
        style.background = merge_opt(style.background, self.background);
        style.border_radius = merge(style.border_radius, self.border_radius);
        style.border_width = merge(style.border_width, self.border_width);
        style.border_color = merge(style.border_color, self.border_color);
        style.text_color = merge(style.text_color, self.text_color);
    }
}

/// The patch of a state that a table writes.
///
/// The fault is that of the first field, in the order of the declaration, that is at fault.
pub open spec fn patch_of(t: Tree, local: Map<Seq<char>, Color>) -> Result<Patch, Fault> {
    let shadow_offset = opt_vector_of(t.field("shadow_offset"@));
    let background = opt_background_of(t.field("background"@), local);
    let border_radius = opt_scalar_of(t.field("border_radius"@));
    let border_width = opt_scalar_of(t.field("border_width"@));
    let border_color = opt_color_of(t.field("border_color"@), local);
    let text_color = opt_color_of(t.field("text_color"@), local);
    if !(t is Table) {
        Err(Fault::Shape)
    } else if shadow_offset is Err {
        Err(shadow_offset->Err_0)
    } else if background is Err {
        Err(background->Err_0)
    } else if border_radius is Err {
        Err(border_radius->Err_0)
    } else if border_width is Err {
        Err(border_width->Err_0)
    } else if border_color is Err {
        Err(border_color->Err_0)
    } else if text_color is Err {
        Err(text_color->Err_0)
    } else {
        Ok(
            Patch {
                shadow_offset: shadow_offset->Ok_0,
                background: background->Ok_0,
                border_radius: border_radius->Ok_0,
                border_width: border_width->Ok_0,
                border_color: border_color->Ok_0,
                text_color: text_color->Ok_0,
            },
        )
    }
}

/// Reads the patch of a state.
pub fn decode_patch(v: &Node, local: &ColorMap) -> (r: Result<Patch, Error>)
    ensures
        outcome(r) == patch_of(v@, local@),
{
    if v.as_table().is_none() {
        return Err(Error::Shape);
    }
    let shadow_offset = opt_vector(v, "shadow_offset")?;
    let background = opt_background(v, "background", local)?;
    let border_radius = opt_scalar(v, "border_radius")?;
    let border_width = opt_scalar(v, "border_width")?;
    let border_color = opt_color(v, "border_color", local)?;
    let text_color = opt_color(v, "text_color", local)?;
    Ok(Patch { shadow_offset, background, border_radius, border_width, border_color, text_color })
}

/// The patch of a state under a key that may be left out, which then sets nothing.
pub open spec fn patch_at(
    node: Option<Tree>,
    local: Map<Seq<char>, Color>,
) -> Result<Patch, Fault> {
    match node {
        None => Ok(Patch::empty()),
        Some(t) => patch_of(t, local),
    }
}

/// Reads the patch of a state under `key`, if the key is there.
pub fn decode_patch_at(v: &Node, key: &str, local: &ColorMap) -> (r: Result<Patch, Error>)
    ensures
        outcome(r) == patch_at(v@.field(key@), local@),
{
    match v.get(key) {
        None => Ok(Patch::new()),
        Some(t) => decode_patch(t, local),
    }
}

/// What a document sets of the four states of a button.
#[derive(Clone, Copy, Debug, PartialEq, Eq)]
pub struct StylePatch {
    pub active: Patch,
    pub hovered: Patch,
    pub pressed: Patch,
    pub disabled: Patch,
}

impl StylePatch {
    /// The patches of a style that sets nothing.
    pub open spec fn empty() -> StylePatch {
        StylePatch {
            active: Patch::empty(),
            hovered: Patch::empty(),
            pressed: Patch::empty(),
            disabled: Patch::empty(),
        }
    }

    /// The patches of a style that sets nothing.
    pub fn new() -> (r: StylePatch)
        ensures
            r == StylePatch::empty(),
    {
        StylePatch {
            active: Patch::new(),
            hovered: Patch::new(),
            pressed: Patch::new(),
            disabled: Patch::new(),
        }
    }
}

/// The patches of a style that a table writes.
///
/// The fault is that of the first field, in the order of the declaration, that is at fault.
pub open spec fn style_patch_of(
    t: Tree,
    local: Map<Seq<char>, Color>,
) -> Result<StylePatch, Fault> {
    let active = patch_at(t.field("active"@), local);
    let hovered = patch_at(t.field("hovered"@), local);
    let pressed = patch_at(t.field("pressed"@), local);
    let disabled = patch_at(t.field("disabled"@), local);
    if !(t is Table) {
        Err(Fault::Shape)
    } else if active is Err {
        Err(active->Err_0)
    } else if hovered is Err {
        Err(hovered->Err_0)
    } else if pressed is Err {
        Err(pressed->Err_0)
    } else if disabled is Err {
        Err(disabled->Err_0)
    } else {
        Ok(
            StylePatch {
                active: active->Ok_0,
                hovered: hovered->Ok_0,
                pressed: pressed->Ok_0,
                disabled: disabled->Ok_0,
            },
        )
    }
}

/// Reads the patches of a style.
pub fn decode_style_patch(v: &Node, local: &ColorMap) -> (r: Result<StylePatch, Error>)
    ensures
        outcome(r) == style_patch_of(v@, local@),
{
    if v.as_table().is_none() {
        return Err(Error::Shape);
    }
    let active = decode_patch_at(v, "active", local)?;
    let hovered = decode_patch_at(v, "hovered", local)?;
    let pressed = decode_patch_at(v, "pressed", local)?;
    let disabled = decode_patch_at(v, "disabled", local)?;
    Ok(StylePatch { active, hovered, pressed, disabled })
}

/// The look of a button in each of its states.
#[derive(Clone, Copy, Debug, PartialEq, Eq)]
pub struct Style {
    pub active: Appearance,
    pub hovered: Appearance,
    pub pressed: Appearance,
    pub disabled: Appearance,
}

/// The look from which the hovered state starts: that of the active state with its shadow
/// one unit lower.
pub open spec fn hovered_from(active: Appearance) -> Appearance {
    Appearance { shadow_offset: active.shadow_offset.lowered(), ..active }
}

/// The look from which the pressed state starts: that of the active state without a shadow.
pub open spec fn pressed_from(active: Appearance) -> Appearance {
    Appearance { shadow_offset: Vector::zero(), ..active }
}

/// The look from which the disabled state starts: that of the active state without a shadow,
/// with its filling and its text at half their opacity.
pub open spec fn disabled_from(active: Appearance) -> Appearance {
    Appearance {
        shadow_offset: Vector::zero(),
        background: match active.background {
            Some(background) => Some(background.faded()),
            None => None,
        },
        text_color: active.text_color.faded(),
        ..active
    }
}

/// The style that the patches of a document resolve to.
///
/// The active state is the baseline under its patch. Each other state starts from the
/// resolved active state, changed as the state asks, and lies under its own patch.
pub open spec fn resolved(patch: StylePatch) -> Style {
    let active = patch.active.over(Appearance::baseline());
    Style {
        active,
        hovered: patch.hovered.over(hovered_from(active)),
        pressed: patch.pressed.over(pressed_from(active)),
        disabled: patch.disabled.over(disabled_from(active)),
    }
}

impl Style {
    /// Resolves the patches of a document to a style.
    pub fn resolve(patch: &StylePatch) -> (r: Style)
        ensures
            r == resolved(*patch),
    {
        let mut active = Appearance::base();
        patch.active.overwrite(&mut active);

        let mut hovered = active;
        hovered.shadow_offset = active.shadow_offset.lower();
        patch.hovered.overwrite(&mut hovered);

        let mut pressed = active;
        pressed.shadow_offset = Vector::origin();
        patch.pressed.overwrite(&mut pressed);

        let mut disabled = active;
        disabled.shadow_offset = Vector::origin();
        disabled.background = match active.background {
            Some(background) => Some(background.fade()),
            None => None,
        };
        disabled.text_color = active.text_color.fade();
        patch.disabled.overwrite(&mut disabled);

        Style { active, hovered, pressed, disabled }
    }
}

/// A disabled button of which the document sets no filling has the filling of the active
/// state at half its opacity, and none where the active state has none.
pub proof fn lemma_disabled_background_is_half(patch: StylePatch)
    requires
        patch.disabled.background is None,
    ensures
        resolved(patch).disabled.background == match resolved(patch).active.background {
            Some(background) => Some(background.faded()),
            None => None,
        },
{
}

impl Patch {
    /// Whether the patch is as a document writes it: no colour halved, the shadow not moved.
    pub open spec fn plain(self) -> bool {
        &&& self.shadow_offset matches Some(offset) ==> offset.steps == 0
        &&& self.background matches Some(background) ==> background.color.halvings == 0
        &&& self.border_color matches Some(color) ==> color.halvings == 0
        &&& self.text_color matches Some(color) ==> color.halvings == 0
    }
}

/// A patch that a table writes is plain, where no colour that the document names is halved.
pub proof fn lemma_patch_of_is_plain(t: Tree, local: Map<Seq<char>, Color>)
    requires
        plain_map(local),
        patch_of(t, local) is Ok,
    ensures
        patch_of(t, local)->Ok_0.plain(),
{
    match t.field("shadow_offset"@) {
        Some(v) => lemma_vector_of_is_unmoved(v),
        None => {},
    }
    match t.field("background"@) {
        Some(v) => lemma_color_of_is_plain(v, local),
        None => {},
    }
    match t.field("border_color"@) {
        Some(v) => lemma_color_of_is_plain(v, local),
        None => {},
    }
    match t.field("text_color"@) {
        Some(v) => lemma_color_of_is_plain(v, local),
        None => {},
    }
}

/// The states of a button that a document writes, where the document sets nothing of them.
///
/// Without a shadow of its own the disabled state has none, whatever the active state has.
/// Without a filling of its own it has none where the active state has none, and else the
/// filling of the active state with the same channels at half the opacity. Without a text
/// colour of its own it has that of the active state with the same channels at half the
/// opacity. Without a shadow of its own the hovered state has that of the active state one
/// unit further down.
pub proof fn lemma_states_of_document(t: Tree, local: Map<Seq<char>, Color>)
    requires
        plain_map(local),
        style_patch_of(t, local) is Ok,
    ensures
        ({
            let patch = style_patch_of(t, local)->Ok_0;
            let style = resolved(patch);
            &&& patch.disabled.shadow_offset is None ==> style.disabled.shadow_offset
                == Vector::zero()
            &&& patch.disabled.background is None ==> match style.active.background {
                None => style.disabled.background is None,
                Some(active) => {
                    &&& style.disabled.background matches Some(disabled)
                    &&& disabled.color.opacity() == half(active.color.opacity())
                    &&& disabled.color.r == active.color.r
                    &&& disabled.color.g == active.color.g
                    &&& disabled.color.b == active.color.b
                },
            }
            &&& patch.disabled.text_color is None ==> {
                &&& style.disabled.text_color.opacity() == half(style.active.text_color.opacity())
                &&& style.disabled.text_color.r == style.active.text_color.r
                &&& style.disabled.text_color.g == style.active.text_color.g
                &&& style.disabled.text_color.b == style.active.text_color.b
            }
            &&& patch.hovered.shadow_offset is None ==> style.hovered.shadow_offset.place() == (
                style.active.shadow_offset.place().0,
                one_more(style.active.shadow_offset.place().1),
            )
        }),
{
    let patch = style_patch_of(t, local)->Ok_0;
    let style = resolved(patch);
    match t.field("active"@) {
        Some(active) => lemma_patch_of_is_plain(active, local),
        None => {},
    }
    assert(patch.active.plain());
    lemma_fading_halves(style.active.text_color);
    match style.active.background {
        Some(active) => lemma_fading_halves(active.color),
        None => {},
    }
    style.active.shadow_offset.lemma_lowering_moves_down();
}

/// A state of which the document sets nothing has the look from which it starts.
pub proof fn lemma_unset_states_follow_the_active_state(patch: StylePatch)
    ensures
        patch.hovered == Patch::empty() ==> resolved(patch).hovered == hovered_from(
            resolved(patch).active,
        ),
        patch.pressed == Patch::empty() ==> resolved(patch).pressed == pressed_from(
            resolved(patch).active,
        ),
        patch.disabled == Patch::empty() ==> resolved(patch).disabled == disabled_from(
            resolved(patch).active,
        ),
{
}

/// The style sheet of a button: its layout and its style.
#[derive(Clone, Copy, Debug, PartialEq, Eq)]
pub struct StyleSheet {
    pub width: Option<Length>,
    pub height: Option<Length>,
    pub padding: Option<u16>,
    pub style: Option<Style>,
}

impl StyleSheet {
    /// The sheet that sets nothing: no layout, and the style of an empty patch.
    pub open spec fn plain() -> StyleSheet {
        StyleSheet {
            width: None,
            height: None,
            padding: None,
            style: Some(resolved(StylePatch::empty())),
        }
    }
}

/// The sheet that a table writes.
///
/// The fields of the style stand in the same table as those of the layout. The fault is
/// that of the first field, in the order of the declaration, that is at fault.
pub open spec fn sheet_of(t: Tree, local: Map<Seq<char>, Color>) -> Result<StyleSheet, Fault> {
    let width = opt_length_of(t.field("width"@));
    let height = opt_length_of(t.field("height"@));
    let padding = opt_u16_of(t.field("padding"@));
    let style = style_patch_of(t, local);
    if !(t is Table) {
        Err(Fault::Shape)
    } else if width is Err {
        Err(width->Err_0)
    } else if height is Err {
        Err(height->Err_0)
    } else if padding is Err {
        Err(padding->Err_0)
    } else if style is Err {
        Err(style->Err_0)
    } else {
        Ok(
            StyleSheet {
                width: width->Ok_0,
                height: height->Ok_0,
                padding: padding->Ok_0,
                style: Some(resolved(style->Ok_0)),
            },
        )
    }
}

/// Reads a sheet.
pub fn decode_sheet(v: &Node, local: &ColorMap) -> (r: Result<StyleSheet, Error>)
    ensures
        outcome(r) == sheet_of(v@, local@),
{
    if v.as_table().is_none() {
        return Err(Error::Shape);
    }
    let width = opt_length(v, "width")?;
    let height = opt_length(v, "height")?;
    let padding = opt_size16(v, "padding")?;
    let style = decode_style_patch(v, local)?;
    Ok(StyleSheet { width, height, padding, style: Some(Style::resolve(&style)) })
}

impl Sheet for StyleSheet {
    open spec fn of(t: Tree, local: Map<Seq<char>, Color>) -> Result<StyleSheet, Fault> {
        sheet_of(t, local)
    }

    open spec fn baseline() -> StyleSheet {
        StyleSheet::plain()
    }

    fn decode(v: &Node, local: &ColorMap) -> (r: Result<StyleSheet, Error>) {
        decode_sheet(v, local)
    }

    fn base() -> (r: StyleSheet) {
        StyleSheet {
            width: None,
            height: None,
            padding: None,
            style: Some(Style::resolve(&StylePatch::new())),
        }
    }

    proof fn lemma_empty_is_baseline(local: Map<Seq<char>, Color>) {
        lemma_empty_table(local);
    }

    proof fn lemma_fault_is_of_document(t: Tree, local: Map<Seq<char>, Color>) {
    }
}

/// The style sheets of buttons, by the names of their variants.
pub type Button = SheetMap<StyleSheet>;

/// A table without entries writes the sheet that sets nothing.
pub proof fn lemma_empty_table(local: Map<Seq<char>, Color>)
    ensures
        sheet_of(Tree::empty_table(), local) == Ok::<StyleSheet, Fault>(StyleSheet::plain()),
{
    reveal(lookup);
    let t = Tree::empty_table();
    assert(patch_at(t.field("active"@), local) == Ok::<Patch, Fault>(Patch::empty()));
    assert(style_patch_of(t, local) == Ok::<StylePatch, Fault>(StylePatch::empty()));
}

} // verus!
