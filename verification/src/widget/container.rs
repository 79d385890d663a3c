//! Containers.

use crate::color::{
    opt_background, opt_background_of, opt_color, opt_color_of, Background, Color, ColorMap,
};
use crate::decode::{opt_scalar, opt_scalar_of, opt_size16, opt_size32, opt_u16_of, opt_u32_of};
use crate::error::{outcome, Error, Fault};
use crate::layout::{
    opt_horizontal, opt_horizontal_of, opt_length, opt_length_of, opt_vertical, opt_vertical_of,
    Horizontal, Length, Vertical,
};
use crate::merge::{merge, merge_opt, overlay, overlay_opt};
use crate::node::{lookup, Node, Tree};
use crate::number::Scalar;
use crate::sheets::{Sheet, SheetMap};
use vstd::prelude::*;

verus! {

/// How a container looks.
#[derive(Clone, Copy, Debug, PartialEq, Eq)]
pub struct Style {
    pub text_color: Option<Color>,
    pub background: Option<Background>,
    pub border_radius: Scalar,
    pub border_width: Scalar,
    pub border_color: Color,
}

impl Style {
    /// The look of a container of which nothing is said: nothing drawn, and the text colour of
    /// its surroundings.
    pub open spec fn baseline() -> Style {
        Style {
            text_color: None,
            background: None,
            border_radius: Scalar::Integer(0),
            border_width: Scalar::Integer(0),
            border_color: Color::transparent(),
        }
    }

    /// The look of a container of which nothing is said.
    pub fn base() -> (r: Style)
        ensures
            r == Style::baseline(),
    {
        Style {
            text_color: None,
            background: None,
            border_radius: Scalar::Integer(0),
            border_width: Scalar::Integer(0),
            border_color: Color::from_transparent(),
        }
    }
}

/// What a document sets of the style.
#[derive(Clone, Copy, Debug, PartialEq, Eq)]
pub struct StylePatch {
    pub text_color: Option<Color>,
    pub background: Option<Background>,
    pub border_radius: Option<Scalar>,
    pub border_width: Option<Scalar>,
    pub border_color: Option<Color>,
}

impl StylePatch {
    /// The patch of a style that sets nothing.
    pub open spec fn empty() -> StylePatch {
        StylePatch {
            text_color: None,
            background: None,
            border_radius: None,
            border_width: None,
            border_color: None,
        }
    }

    /// The style with what this sets laid over it.
    pub open spec fn over(self, base: Style) -> Style {
        Style {
            text_color: overlay_opt(base.text_color, self.text_color),
            background: overlay_opt(base.background, self.background),
            border_radius: overlay(base.border_radius, self.border_radius),
            border_width: overlay(base.border_width, self.border_width),
            border_color: overlay(base.border_color, self.border_color),
        }
    }

    /// A patch that sets nothing leaves what lies under it as it is.
    pub proof fn lemma_empty_keeps(base: Style)
        ensures
            StylePatch::empty().over(base) == base,
    {
    }

    /// The patch of a style that sets nothing.
    pub fn new() -> (r: StylePatch)
        ensures
            r == StylePatch::empty(),
    {
        StylePatch {
            text_color: None,
            background: None,
            border_radius: None,
            border_width: None,
            border_color: None,
        }
    }

    /// Lays what this sets over `style`.
    pub fn overwrite(&self, style: &mut Style)
        ensures
            *final(style) == self.over(*old(style)),
    {
        style.text_color = merge_opt(style.text_color, self.text_color);
        style.background = merge_opt(style.background, self.background);
        style.border_radius = merge(style.border_radius, self.border_radius);
        style.border_width = merge(style.border_width, self.border_width);
        style.border_color = merge(style.border_color, self.border_color);
    }
}

/// The patch of a style that a table writes.
///
/// The fault is that of the first field, in the order of the declaration, that is at fault.
pub open spec fn style_patch_of(
    t: Tree,
    local: Map<Seq<char>, Color>,
) -> Result<StylePatch, Fault> {
    let text_color = opt_color_of(t.field("text_color"@), local);
    let background = opt_background_of(t.field("background"@), local);
    let border_radius = opt_scalar_of(t.field("border_radius"@));
    let border_width = opt_scalar_of(t.field("border_width"@));
    let border_color = opt_color_of(t.field("border_color"@), local);
    if !(t is Table) {
        Err(Fault::Shape)
    } else if text_color is Err {
        Err(text_color->Err_0)
    } else if background is Err {
        Err(background->Err_0)
    } else if border_radius is Err {
        Err(border_radius->Err_0)
    } else if border_width is Err {
        Err(border_width->Err_0)
    } else if border_color is Err {
        Err(border_color->Err_0)
    } else {
        Ok(
            StylePatch {
                text_color: text_color->Ok_0,
                background: background->Ok_0,
                border_radius: border_radius->Ok_0,
                border_width: border_width->Ok_0,
                border_color: border_color->Ok_0,
            },
        )
    }
}

/// Reads the patch of a style.
pub fn decode_style_patch(v: &Node, local: &ColorMap) -> (r: Result<StylePatch, Error>)
    ensures
        outcome(r) == style_patch_of(v@, local@),
{
    if v.as_table().is_none() {
        return Err(Error::Shape);
    }
    let text_color = opt_color(v, "text_color", local)?;
    let background = opt_background(v, "background", local)?;
    let border_radius = opt_scalar(v, "border_radius")?;
    let border_width = opt_scalar(v, "border_width")?;
    let border_color = opt_color(v, "border_color", local)?;
    Ok(StylePatch { text_color, background, border_radius, border_width, border_color })
}

/// The style that the patch of a document resolves to: the baseline under the patch.
pub open spec fn resolved(patch: StylePatch) -> Style {
    patch.over(Style::baseline())
}

impl Style {
    /// Resolves the patch of a document to a style.
    pub fn resolve(patch: &StylePatch) -> (r: Style)
        ensures
            r == resolved(*patch),
    {
        let mut style = Style::base();
        patch.overwrite(&mut style);
        style
    }
}

/// The style sheet of a container: its layout and its style.
#[derive(Clone, Copy, Debug, PartialEq, Eq)]
pub struct StyleSheet {
    pub padding: Option<u16>,
    pub width: Option<Length>,
    pub height: Option<Length>,
    pub max_width: Option<u32>,
    pub max_height: Option<u32>,
    pub align_x: Option<Horizontal>,
    pub align_y: Option<Vertical>,
    pub style: Option<Style>,
}

impl StyleSheet {
    /// The sheet that sets nothing: no layout, and the style of an empty patch.
    pub open spec fn plain() -> StyleSheet {
        StyleSheet {
            padding: None,
            width: None,
            height: None,
            max_width: None,
            max_height: None,
            align_x: None,
            align_y: None,
            style: Some(resolved(StylePatch::empty())),
        }
    }
}

/// The sheet that a table writes.
///
/// The fields of the style stand in the same table as those of the layout. The fault is
/// that of the first field, in the order of the declaration, that is at fault.
pub open spec fn sheet_of(t: Tree, local: Map<Seq<char>, Color>) -> Result<StyleSheet, Fault> {
    let padding = opt_u16_of(t.field("padding"@));
    let width = opt_length_of(t.field("width"@));
    let height = opt_length_of(t.field("height"@));
    let max_width = opt_u32_of(t.field("max_width"@));
    let max_height = opt_u32_of(t.field("max_height"@));
    let align_x = opt_horizontal_of(t.field("align_x"@));
    let align_y = opt_vertical_of(t.field("align_y"@));
    let style = style_patch_of(t, local);
    if !(t is Table) {
        Err(Fault::Shape)
    } else if padding is Err {
        Err(padding->Err_0)
    } else if width is Err {
        Err(width->Err_0)
    } else if height is Err {
        Err(height->Err_0)
    } else if max_width is Err {
        Err(max_width->Err_0)
    } else if max_height is Err {
        Err(max_height->Err_0)
    } else if align_x is Err {
        Err(align_x->Err_0)
    } else if align_y is Err {
        Err(align_y->Err_0)
    } else if style is Err {
        Err(style->Err_0)
    } else {
        Ok(
            StyleSheet {
                padding: padding->Ok_0,
                width: width->Ok_0,
                height: height->Ok_0,
                max_width: max_width->Ok_0,
                max_height: max_height->Ok_0,
                align_x: align_x->Ok_0,
                align_y: align_y->Ok_0,
                style: Some(resolved(style->Ok_0)),
            },
        )
    }
}

/// Reads a sheet.
pub fn decode_sheet(v: &Node, local: &ColorMap) -> (r: Result<StyleSheet, Error>)
    ensures
        outcome(r) == sheet_of(v@, local@),
{
    if v.as_table().is_none() {
        return Err(Error::Shape);
    }
    let padding = opt_size16(v, "padding")?;
    let width = opt_length(v, "width")?;
    let height = opt_length(v, "height")?;
    let max_width = opt_size32(v, "max_width")?;
    let max_height = opt_size32(v, "max_height")?;
    let align_x = opt_horizontal(v, "align_x")?;
    let align_y = opt_vertical(v, "align_y")?;
    let style = decode_style_patch(v, local)?;
    Ok(
        StyleSheet {
            padding,
            width,
            height,
            max_width,
            max_height,
            align_x,
            align_y,
            style: Some(Style::resolve(&style)),
        },
    )
}

impl Sheet for StyleSheet {
    open spec fn of(t: Tree, local: Map<Seq<char>, Color>) -> Result<StyleSheet, Fault> {
        sheet_of(t, local)
    }

    open spec fn baseline() -> StyleSheet {
        StyleSheet::plain()
    }

    fn decode(v: &Node, local: &ColorMap) -> (r: Result<StyleSheet, Error>) {
        decode_sheet(v, local)
    }

    fn base() -> (r: StyleSheet) {
        StyleSheet {
            padding: None,
            width: None,
            height: None,
            max_width: None,
            max_height: None,
            align_x: None,
            align_y: None,
            style: Some(Style::resolve(&StylePatch::new())),
        }
    }

    proof fn lemma_empty_is_baseline(local: Map<Seq<char>, Color>) {
        lemma_empty_table(local);
    }

    proof fn lemma_fault_is_of_document(t: Tree, local: Map<Seq<char>, Color>) {
    }
}

/// The style sheets of containers, by the names of their variants.
pub type Container = SheetMap<StyleSheet>;

/// A table without entries writes the sheet that sets nothing.
pub proof fn lemma_empty_table(local: Map<Seq<char>, Color>)
    ensures
        sheet_of(Tree::empty_table(), local) == Ok::<StyleSheet, Fault>(StyleSheet::plain()),
{
    reveal(lookup);
    let t = Tree::empty_table();
    assert(style_patch_of(t, local) == Ok::<StylePatch, Fault>(StylePatch::empty()));
}

} // verus!
