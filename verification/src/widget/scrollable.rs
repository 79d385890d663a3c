//! Scrollables.

use crate::color::{
    opt_background, opt_background_of, opt_color, opt_color_of, Background, Color, ColorMap,
};
use crate::decode::{opt_scalar, opt_scalar_of, opt_size16, opt_size32, opt_u16_of, opt_u32_of};
use crate::error::{outcome, Error, Fault};
use crate::layout::{opt_alignment, opt_alignment_of, opt_length, opt_length_of, Alignment, Length};
use crate::merge::{merge, merge_opt, overlay, overlay_opt};
use crate::node::{lookup, Node, Tree};
use crate::number::Scalar;
use crate::sheets::{Sheet, SheetMap};
use vstd::prelude::*;

verus! {

/// How the scroller of a scrollbar looks.
#[derive(Clone, Copy, Debug, PartialEq, Eq)]
pub struct Scroller {
    pub color: Color,
    pub border_radius: Scalar,
    pub border_width: Scalar,
    pub border_color: Color,
}

impl Scroller {
    /// The look of a scroller of which nothing is said: black at seven tenths of its opacity,
    /// with rounded corners and no border.
    pub open spec fn baseline() -> Scroller {
        Scroller {
            color: Color::rgba(
                Scalar::Integer(0),
                Scalar::Integer(0),
                Scalar::Integer(0),
                Scalar::Ratio(70, 100),
            ),
            border_radius: Scalar::Integer(5),
            border_width: Scalar::Integer(0),
            border_color: Color::transparent(),
        }
    }

    /// The look of a scroller of which nothing is said.
    pub fn base() -> (r: Scroller)
        ensures
            r == Scroller::baseline(),
    {
        Scroller {
            color: Color::from_rgba(
                Scalar::Integer(0),
                Scalar::Integer(0),
                Scalar::Integer(0),
                Scalar::Ratio(70, 100),
            ),
            border_radius: Scalar::Integer(5),
            border_width: Scalar::Integer(0),
            border_color: Color::from_transparent(),
        }
    }
}

/// What a document sets of the look of a scroller.
#[derive(Clone, Copy, Debug, PartialEq, Eq)]
pub struct ScrollerPatch {
    pub color: Option<Color>,
    pub border_radius: Option<Scalar>,
    pub border_width: Option<Scalar>,
    pub border_color: Option<Color>,
}

impl ScrollerPatch {
    /// The patch of a scroller that sets nothing.
    pub open spec fn empty() -> ScrollerPatch {
        ScrollerPatch {
            color: None,
            border_radius: None,
            border_width: None,
            border_color: None,
        }
    }

    /// The look with what this sets laid over it.
    pub open spec fn over(self, base: Scroller) -> Scroller {
        Scroller {
            color: overlay(base.color, self.color),
            border_radius: overlay(base.border_radius, self.border_radius),
            border_width: overlay(base.border_width, self.border_width),
            border_color: overlay(base.border_color, self.border_color),
        }
    }

    /// A patch that sets nothing leaves what lies under it as it is.
    pub proof fn lemma_empty_keeps(base: Scroller)
        ensures
            ScrollerPatch::empty().over(base) == base,
    {
    }

    /// The patch of a scroller that sets nothing.
    pub fn new() -> (r: ScrollerPatch)
        ensures
            r == ScrollerPatch::empty(),
    {
        ScrollerPatch {
            color: None,
            border_radius: None,
            border_width: None,
            border_color: None,
        }
    }

    /// Lays what this sets over `style`.
    pub fn overwrite(&self, style: &mut Scroller)
        ensures
            *final(style) == self.over(*old(style)),
    {
        style.color = merge(style.color, self.color);
        style.border_radius = merge(style.border_radius, self.border_radius);
        style.border_width = merge(style.border_width, self.border_width);
        style.border_color = merge(style.border_color, self.border_color);
    }
}

/// The patch of a scroller that a table writes.
///
/// The fault is that of the first field, in the order of the declaration, that is at fault.
pub open spec fn scroller_patch_of(
    t: Tree,
    local: Map<Seq<char>, Color>,
) -> Result<ScrollerPatch, Fault> {
    let color = opt_color_of(t.field("color"@), local);
    let border_radius = opt_scalar_of(t.field("border_radius"@));
    let border_width = opt_scalar_of(t.field("border_width"@));
    let border_color = opt_color_of(t.field("border_color"@), local);
    if !(t is Table) {
        Err(Fault::Shape)
    } else if color is Err {
        Err(color->Err_0)
    } else if border_radius is Err {
        Err(border_radius->Err_0)
    } else if border_width is Err {
        Err(border_width->Err_0)
    } else if border_color is Err {
        Err(border_color->Err_0)
    } else {
        Ok(
            ScrollerPatch {
                color: color->Ok_0,
                border_radius: border_radius->Ok_0,
                border_width: border_width->Ok_0,
                border_color: border_color->Ok_0,
            },
        )
    }
}

/// Reads the patch of a scroller.
pub fn decode_scroller_patch(v: &Node, local: &ColorMap) -> (r: Result<ScrollerPatch, Error>)
    ensures
        outcome(r) == scroller_patch_of(v@, local@),
{
    if v.as_table().is_none() {
        return Err(Error::Shape);
    }
    let color = opt_color(v, "color", local)?;
    let border_radius = opt_scalar(v, "border_radius")?;
    let border_width = opt_scalar(v, "border_width")?;
    let border_color = opt_color(v, "border_color", local)?;
    Ok(ScrollerPatch { color, border_radius, border_width, border_color })
}

/// The patch of a scroller under a key that may be left out, which then sets nothing.
pub open spec fn scroller_patch_at(
    node: Option<Tree>,
    local: Map<Seq<char>, Color>,
) -> Result<ScrollerPatch, Fault> {
    match node {
        None => Ok(ScrollerPatch::empty()),
        Some(t) => scroller_patch_of(t, local),
    }
}

/// Reads the patch of a scroller under `key`, if the key is there.
pub fn decode_scroller_patch_at(
    v: &Node,
    key: &str,
    local: &ColorMap,
) -> (r: Result<ScrollerPatch, Error>)
    ensures
        outcome(r) == scroller_patch_at(v@.field(key@), local@),
{
    match v.get(key) {
        None => Ok(ScrollerPatch::new()),
        Some(t) => decode_scroller_patch(t, local),
    }
}

/// How a scrollbar looks in one of its states.
#[derive(Clone, Copy, Debug, PartialEq, Eq)]
pub struct Scrollbar {
    pub background: Option<Background>,
    pub border_radius: Scalar,
    pub border_width: Scalar,
    pub border_color: Color,
    pub scroller: Scroller,
}

impl Scrollbar {
    /// The look of a scrollbar of which nothing is said: no filling and no border, around the
    /// scroller of which nothing is said.
    pub open spec fn baseline() -> Scrollbar {
        Scrollbar {
            background: None,
            border_radius: Scalar::Integer(5),
            border_width: Scalar::Integer(0),
            border_color: Color::transparent(),
            scroller: Scroller::baseline(),
        }
    }

    /// The look of a scrollbar of which nothing is said.
    pub fn base() -> (r: Scrollbar)
        ensures
            r == Scrollbar::baseline(),
    {
        Scrollbar {
            background: None,
            border_radius: Scalar::Integer(5),
            border_width: Scalar::Integer(0),
            border_color: Color::from_transparent(),
            scroller: Scroller::base(),
        }
    }
}

/// What a document sets of the look of one state of a scrollbar.
#[derive(Clone, Copy, Debug, PartialEq, Eq)]
pub struct ScrollbarPatch {
    pub background: Option<Background>,
    pub border_radius: Option<Scalar>,
    pub border_width: Option<Scalar>,
    pub border_color: Option<Color>,
    pub scroller: ScrollerPatch,
}

impl ScrollbarPatch {
    /// The patch of a state that sets nothing.
    pub open spec fn empty() -> ScrollbarPatch {
        ScrollbarPatch {
            background: None,
            border_radius: None,
            border_width: None,
            border_color: None,
            scroller: ScrollerPatch::empty(),
        }
    }

    /// The look with what this sets laid over it.
    pub open spec fn over(self, base: Scrollbar) -> Scrollbar {
        Scrollbar {
            background: overlay_opt(base.background, self.background),
            border_radius: overlay(base.border_radius, self.border_radius),
            border_width: overlay(base.border_width, self.border_width),
            border_color: overlay(base.border_color, self.border_color),
            scroller: self.scroller.over(base.scroller),
        }
    }

    /// A patch that sets nothing leaves what lies under it as it is.
    pub proof fn lemma_empty_keeps(base: Scrollbar)
        ensures
            ScrollbarPatch::empty().over(base) == base,
    {
    }

    /// The patch of a state that sets nothing.
    pub fn new() -> (r: ScrollbarPatch)
        ensures
            r == ScrollbarPatch::empty(),
    {
        ScrollbarPatch {
            background: None,
            border_radius: None,
            border_width: None,
            border_color: None,
            scroller: ScrollerPatch::new(),
        }
    }

    /// Lays what this sets over `style`.
    pub fn overwrite(&self, style: &mut Scrollbar)
        ensures
            *final(style) == self.over(*old(style)),
    {
        style.background = merge_opt(style.background, self.background);
        style.border_radius = merge(style.border_radius, self.border_radius);
        style.border_width = merge(style.border_width, self.border_width);
        style.border_color = merge(style.border_color, self.border_color);
        self.scroller.overwrite(&mut style.scroller);
    }
}

/// The patch of a state that a table writes.
///
/// The fault is that of the first field, in the order of the declaration, that is at fault.
pub open spec fn scrollbar_patch_of(
    t: Tree,
    local: Map<Seq<char>, Color>,
) -> Result<ScrollbarPatch, Fault> {
    let background = opt_background_of(t.field("background"@), local);
    let border_radius = opt_scalar_of(t.field("border_radius"@));
    let border_width = opt_scalar_of(t.field("border_width"@));
    let border_color = opt_color_of(t.field("border_color"@), local);
    let scroller = scroller_patch_at(t.field("scroller"@), local);
    if !(t is Table) {
        Err(Fault::Shape)
    } else if background is Err {
        Err(background->Err_0)
    } else if border_radius is Err {
        Err(border_radius->Err_0)
    } else if border_width is Err {
        Err(border_width->Err_0)
    } else if border_color is Err {
        Err(border_color->Err_0)
    } else if scroller is Err {
        Err(scroller->Err_0)
    } else {
        Ok(
            ScrollbarPatch {
                background: background->Ok_0,
                border_radius: border_radius->Ok_0,
                border_width: border_width->Ok_0,
                border_color: border_color->Ok_0,
                scroller: scroller->Ok_0,
            },
        )
    }
}

/// Reads the patch of a state.
pub fn decode_scrollbar_patch(v: &Node, local: &ColorMap) -> (r: Result<ScrollbarPatch, Error>)
    ensures
        outcome(r) == scrollbar_patch_of(v@, local@),
{
    if v.as_table().is_none() {
        return Err(Error::Shape);
    }
    let background = opt_background(v, "background", local)?;
    let border_radius = opt_scalar(v, "border_radius")?;
    let border_width = opt_scalar(v, "border_width")?;
    let border_color = opt_color(v, "border_color", local)?;
    let scroller = decode_scroller_patch_at(v, "scroller", local)?;
    Ok(ScrollbarPatch { background, border_radius, border_width, border_color, scroller })
}

/// The patch of a state under a key that may be left out, which then sets nothing.
pub open spec fn scrollbar_patch_at(
    node: Option<Tree>,
    local: Map<Seq<char>, Color>,
) -> Result<ScrollbarPatch, Fault> {
    match node {
        None => Ok(ScrollbarPatch::empty()),
        Some(t) => scrollbar_patch_of(t, local),
    }
}

/// Reads the patch of a state under `key`, if the key is there.
pub fn decode_scrollbar_patch_at(
    v: &Node,
    key: &str,
    local: &ColorMap,
) -> (r: Result<ScrollbarPatch, Error>)
    ensures
        outcome(r) == scrollbar_patch_at(v@.field(key@), local@),
{
    match v.get(key) {
        None => Ok(ScrollbarPatch::new()),
        Some(t) => decode_scrollbar_patch(t, local),
    }
}

/// What a document sets of the three states of a scrollbar.
#[derive(Clone, Copy, Debug, PartialEq, Eq)]
pub struct StylePatch {
    pub active: ScrollbarPatch,
    pub hovered: ScrollbarPatch,
    pub dragging: ScrollbarPatch,
}

impl StylePatch {
    /// The patches of a style that sets nothing.
    pub open spec fn empty() -> StylePatch {
        StylePatch {
            active: ScrollbarPatch::empty(),
            hovered: ScrollbarPatch::empty(),
            dragging: ScrollbarPatch::empty(),
        }
    }

    /// The patches of a style that sets nothing.
    pub fn new() -> (r: StylePatch)
        ensures
            r == StylePatch::empty(),
    {
        StylePatch {
            active: ScrollbarPatch::new(),
            hovered: ScrollbarPatch::new(),
            dragging: ScrollbarPatch::new(),
        }
    }
}

/// The patches of a style that a table writes.
///
/// The fault is that of the first field, in the order of the declaration, that is at fault.
pub open spec fn style_patch_of(
    t: Tree,
    local: Map<Seq<char>, Color>,
) -> Result<StylePatch, Fault> {
    let active = scrollbar_patch_at(t.field("active"@), local);
    let hovered = scrollbar_patch_at(t.field("hovered"@), local);
    let dragging = scrollbar_patch_at(t.field("dragging"@), local);
    if !(t is Table) {
        Err(Fault::Shape)
    } else if active is Err {
        Err(active->Err_0)
    } else if hovered is Err {
        Err(hovered->Err_0)
    } else if dragging is Err {
        Err(dragging->Err_0)
    } else {
        Ok(
            StylePatch {
                active: active->Ok_0,
                hovered: hovered->Ok_0,
                dragging: dragging->Ok_0,
            },
        )
    }
}

/// Reads the patches of a style.
pub fn decode_style_patch(v: &Node, local: &ColorMap) -> (r: Result<StylePatch, Error>)
    ensures
        outcome(r) == style_patch_of(v@, local@),
{
    if v.as_table().is_none() {
        return Err(Error::Shape);
    }
    let active = decode_scrollbar_patch_at(v, "active", local)?;
    let hovered = decode_scrollbar_patch_at(v, "hovered", local)?;
    let dragging = decode_scrollbar_patch_at(v, "dragging", local)?;
    Ok(StylePatch { active, hovered, dragging })
}

/// The look of a scrollbar in each of its states.
#[derive(Clone, Copy, Debug, PartialEq, Eq)]
pub struct Style {
    pub active: Scrollbar,
    pub hovered: Scrollbar,
    pub dragging: Scrollbar,
}

/// The look from which the hovered state starts: that of the active state on black at three
/// tenths of its opacity.
pub open spec fn hovered_from(active: Scrollbar) -> Scrollbar {
    Scrollbar {
        background: Some(
            Background::of(
                Color::rgba(
                    Scalar::Integer(0),
                    Scalar::Integer(0),
                    Scalar::Integer(0),
                    Scalar::Ratio(30, 100),
                ),
            ),
        ),
        ..active
    }
}

/// The style that the patches of a document resolve to.
///
/// The active state is the baseline under its patch. The hovered state starts from the
/// resolved active state on a dark filling, and the dragging state from the resolved hovered
/// state; each lies under its own patch.
pub open spec fn resolved(patch: StylePatch) -> Style {
    let active = patch.active.over(Scrollbar::baseline());
    let hovered = patch.hovered.over(hovered_from(active));
    Style { active, hovered, dragging: patch.dragging.over(hovered) }
}

impl Style {
    /// Resolves the patches of a document to a style.
    pub fn resolve(patch: &StylePatch) -> (r: Style)
        ensures
            r == resolved(*patch),
    {
        let mut active = Scrollbar::base();
        patch.active.overwrite(&mut active);

        let mut hovered = active;
        hovered.background = Some(
            Background::solid(
                Color::from_rgba(
                    Scalar::Integer(0),
                    Scalar::Integer(0),
                    Scalar::Integer(0),
                    Scalar::Ratio(30, 100),
                ),
            ),
        );
        patch.hovered.overwrite(&mut hovered);

        let mut dragging = hovered;
        patch.dragging.overwrite(&mut dragging);

        Style { active, hovered, dragging }
    }
}

/// The style sheet of a scrollable: its layout and the style of its scrollbar.
#[derive(Clone, Copy, Debug, PartialEq, Eq)]
pub struct StyleSheet {
    pub spacing: Option<u16>,
    pub padding: Option<u16>,
    pub width: Option<Length>,
    pub height: Option<Length>,
    pub max_width: Option<u32>,
    pub max_height: Option<u32>,
    pub align_items: Option<Alignment>,
    pub scrollbar_width: Option<u16>,
    pub scrollbar_margin: Option<u16>,
    pub scroller_width: Option<u16>,
    pub style: Option<Style>,
}

impl StyleSheet {
    /// The sheet that sets nothing: no layout, and the style of an empty patch.
    pub open spec fn plain() -> StyleSheet {
        StyleSheet {
            spacing: None,
            padding: None,
            width: None,
            height: None,
            max_width: None,
            max_height: None,
            align_items: None,
            scrollbar_width: None,
            scrollbar_margin: None,
            scroller_width: None,
            style: Some(resolved(StylePatch::empty())),
        }
    }
}

/// The sheet that a table writes.
///
/// The fields of the style stand in the same table as those of the layout. The fault is
/// that of the first field, in the order of the declaration, that is at fault.
pub open spec fn sheet_of(t: Tree, local: Map<Seq<char>, Color>) -> Result<StyleSheet, Fault> {
    let spacing = opt_u16_of(t.field("spacing"@));
    let padding = opt_u16_of(t.field("padding"@));
    let width = opt_length_of(t.field("width"@));
    let height = opt_length_of(t.field("height"@));
    let max_width = opt_u32_of(t.field("max_width"@));
    let max_height = opt_u32_of(t.field("max_height"@));
    let align_items = opt_alignment_of(t.field("align_items"@));
    let scrollbar_width = opt_u16_of(t.field("scrollbar_width"@));
    let scrollbar_margin = opt_u16_of(t.field("scrollbar_margin"@));
    let scroller_width = opt_u16_of(t.field("scroller_width"@));
    let style = style_patch_of(t, local);
    if !(t is Table) {
        Err(Fault::Shape)
    } else if spacing is Err {
        Err(spacing->Err_0)
    } else if padding is Err {
        Err(padding->Err_0)
    } else if width is Err {
        Err(width->Err_0)
    } else if height is Err {
        Err(height->Err_0)
    } else if max_width is Err {
        Err(max_width->Err_0)
    } else if max_height is Err {
        Err(max_height->Err_0)
    } else if align_items is Err {
        Err(align_items->Err_0)
    } else if scrollbar_width is Err {
        Err(scrollbar_width->Err_0)
    } else if scrollbar_margin is Err {
        Err(scrollbar_margin->Err_0)
    } else if scroller_width is Err {
        Err(scroller_width->Err_0)
    } else if style is Err {
        Err(style->Err_0)
    } else {
        Ok(
            StyleSheet {
                spacing: spacing->Ok_0,
                padding: padding->Ok_0,
                width: width->Ok_0,
                height: height->Ok_0,
                max_width: max_width->Ok_0,
                max_height: max_height->Ok_0,
                align_items: align_items->Ok_0,
                scrollbar_width: scrollbar_width->Ok_0,
                scrollbar_margin: scrollbar_margin->Ok_0,
                scroller_width: scroller_width->Ok_0,
                style: Some(resolved(style->Ok_0)),
            },
        )
    }
}

/// Reads a sheet.
pub fn decode_sheet(v: &Node, local: &ColorMap) -> (r: Result<StyleSheet, Error>)
    ensures
        outcome(r) == sheet_of(v@, local@),
{
    if v.as_table().is_none() {
        return Err(Error::Shape);
    }
    let spacing = opt_size16(v, "spacing")?;
    let padding = opt_size16(v, "padding")?;
    let width = opt_length(v, "width")?;
    let height = opt_length(v, "height")?;
    let max_width = opt_size32(v, "max_width")?;
    let max_height = opt_size32(v, "max_height")?;
    let align_items = opt_alignment(v, "align_items")?;
    let scrollbar_width = opt_size16(v, "scrollbar_width")?;
    let scrollbar_margin = opt_size16(v, "scrollbar_margin")?;
    let scroller_width = opt_size16(v, "scroller_width")?;
    let style = decode_style_patch(v, local)?;
    Ok(
        StyleSheet {
            spacing,
            padding,
            width,
            height,
            max_width,
            max_height,
            align_items,
            scrollbar_width,
            scrollbar_margin,
            scroller_width,
            style: Some(Style::resolve(&style)),
        },
    )
}

impl Sheet for StyleSheet {
    open spec fn of(t: Tree, local: Map<Seq<char>, Color>) -> Result<StyleSheet, Fault> {
        sheet_of(t, local)
    }

    open spec fn baseline() -> StyleSheet {
        StyleSheet::plain()
    }

    fn decode(v: &Node, local: &ColorMap) -> (r: Result<StyleSheet, Error>) {
        decode_sheet(v, local)
    }

    fn base() -> (r: StyleSheet) {
        StyleSheet {
            spacing: None,
            padding: None,
            width: None,
            height: None,
            max_width: None,
            max_height: None,
            align_items: None,
            scrollbar_width: None,
            scrollbar_margin: None,
            scroller_width: None,
            style: Some(Style::resolve(&StylePatch::new())),
        }
    }

    proof fn lemma_empty_is_baseline(local: Map<Seq<char>, Color>) {
        lemma_empty_table(local);
    }

    proof fn lemma_fault_is_of_document(t: Tree, local: Map<Seq<char>, Color>) {
    }
}

/// The style sheets of scrollables, by the names of their variants.
pub type Scrollable = SheetMap<StyleSheet>;

/// A table without entries writes the sheet that sets nothing.
pub proof fn lemma_empty_table(local: Map<Seq<char>, Color>)
    ensures
        sheet_of(Tree::empty_table(), local) == Ok::<StyleSheet, Fault>(StyleSheet::plain()),
{
    reveal(lookup);
    let t = Tree::empty_table();
    assert(scrollbar_patch_at(t.field("active"@), local) == Ok::<ScrollbarPatch, Fault>(
        ScrollbarPatch::empty(),
    ));
    assert(style_patch_of(t, local) == Ok::<StylePatch, Fault>(StylePatch::empty()));
}

} // verus!
