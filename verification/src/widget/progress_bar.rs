//! Progress bars.

use crate::color::{opt_background, opt_background_of, Background, Color, ColorMap};
use crate::decode::{opt_scalar, opt_scalar_of};
use crate::error::{outcome, Error, Fault};
use crate::layout::{opt_length, opt_length_of, Length};
use crate::merge::{merge, overlay};
use crate::node::{lookup, Node, Tree};
use crate::number::Scalar;
use crate::sheets::{Sheet, SheetMap};
use vstd::prelude::*;

verus! {

/// How a progress bar looks.
#[derive(Clone, Copy, Debug, PartialEq, Eq)]
pub struct Style {
    pub background: Background,
    pub bar: Background,
    pub border_radius: Scalar,
}

impl Style {
    /// The look of a progress bar of which nothing is said: a green bar on grey, with rounded
    /// corners.
    pub open spec fn baseline() -> Style {
        Style {
            background: Background::of(Color::gray(60)),
            bar: Background::of(
                Color::rgb(Scalar::Ratio(30, 100), Scalar::Ratio(90, 100), Scalar::Ratio(30, 100)),
            ),
            border_radius: Scalar::Integer(5),
        }
    }

    /// The look of a progress bar of which nothing is said.
    pub fn base() -> (r: Style)
        ensures
            r == Style::baseline(),
    {
        Style {
            background: Background::solid(Color::from_gray(60)),
            bar: Background::solid(
                Color::from_rgb(
                    Scalar::Ratio(30, 100),
                    Scalar::Ratio(90, 100),
                    Scalar::Ratio(30, 100),
                ),
            ),
            border_radius: Scalar::Integer(5),
        }
    }
}

/// What a document sets of the style.
#[derive(Clone, Copy, Debug, PartialEq, Eq)]
pub struct StylePatch {
    pub background: Option<Background>,
    pub bar: Option<Background>,
    pub border_radius: Option<Scalar>,
}

impl StylePatch {
    /// The patch of a style that sets nothing.
    pub open spec fn empty() -> StylePatch {
        StylePatch {
            background: None,
            bar: None,
            border_radius: None,
        }
    }

    /// The style with what this sets laid over it.
    pub open spec fn over(self, base: Style) -> Style {
        Style {
            background: overlay(base.background, self.background),
            bar: overlay(base.bar, self.bar),
            border_radius: overlay(base.border_radius, self.border_radius),
        }
    }

    /// A patch that sets nothing leaves what lies under it as it is.
    pub proof fn lemma_empty_keeps(base: Style)
        ensures
            StylePatch::empty().over(base) == base,
    {
    }

    /// The patch of a style that sets nothing.
    pub fn new() -> (r: StylePatch)
        ensures
            r == StylePatch::empty(),
    {
        StylePatch {
            background: None,
            bar: None,
            border_radius: None,
        }
    }

    /// Lays what this sets over `style`.
    pub fn overwrite(&self, style: &mut Style)
        ensures
            *final(style) == self.over(*old(style)),
    {
        style.background = merge(style.background, self.background);
        style.bar = merge(style.bar, self.bar);
        style.border_radius = merge(style.border_radius, self.border_radius);
    }
}

/// The patch of a style that a table writes.
///
/// The fault is that of the first field, in the order of the declaration, that is at fault.
pub open spec fn style_patch_of(
    t: Tree,
    local: Map<Seq<char>, Color>,
) -> Result<StylePatch, Fault> {
    let background = opt_background_of(t.field("background"@), local);
    let bar = opt_background_of(t.field("bar"@), local);
    let border_radius = opt_scalar_of(t.field("border_radius"@));
    if !(t is Table) {
        Err(Fault::Shape)
    } else if background is Err {
        Err(background->Err_0)
    } else if bar is Err {
        Err(bar->Err_0)
    } else if border_radius is Err {
        Err(border_radius->Err_0)
    } else {
        Ok(
            StylePatch {
                background: background->Ok_0,
                bar: bar->Ok_0,
                border_radius: border_radius->Ok_0,
            },
        )
    }
}

/// Reads the patch of a style.
pub fn decode_style_patch(v: &Node, local: &ColorMap) -> (r: Result<StylePatch, Error>)
    ensures
        outcome(r) == style_patch_of(v@, local@),
{
    if v.as_table().is_none() {
        return Err(Error::Shape);
    }
    let background = opt_background(v, "background", local)?;
    let bar = opt_background(v, "bar", local)?;
    let border_radius = opt_scalar(v, "border_radius")?;
    Ok(StylePatch { background, bar, border_radius })
}

/// The style that the patch of a document resolves to: the baseline under the patch.
pub open spec fn resolved(patch: StylePatch) -> Style {
    patch.over(Style::baseline())
}

impl Style {
    /// Resolves the patch of a document to a style.
    pub fn resolve(patch: &StylePatch) -> (r: Style)
        ensures
            r == resolved(*patch),
    {
        let mut style = Style::base();
        patch.overwrite(&mut style);
        style
    }
}

/// The style sheet of a progress bar: its layout and its style.
#[derive(Clone, Copy, Debug, PartialEq, Eq)]
pub struct StyleSheet {
    pub width: Option<Length>,
    pub height: Option<Length>,
    pub style: Option<Style>,
}

impl StyleSheet {
    /// The sheet that sets nothing: no layout, and the style of an empty patch.
    pub open spec fn plain() -> StyleSheet {
        StyleSheet {
            width: None,
            height: None,
            style: Some(resolved(StylePatch::empty())),
        }
    }
}

/// The sheet that a table writes.
///
/// The fields of the style stand in the same table as those of the layout. The fault is
/// that of the first field, in the order of the declaration, that is at fault.
pub open spec fn sheet_of(t: Tree, local: Map<Seq<char>, Color>) -> Result<StyleSheet, Fault> {
    let width = opt_length_of(t.field("width"@));
    let height = opt_length_of(t.field("height"@));
    let style = style_patch_of(t, local);
    if !(t is Table) {
        Err(Fault::Shape)
    } else if width is Err {
        Err(width->Err_0)
    } else if height is Err {
        Err(height->Err_0)
    } else if style is Err {
        Err(style->Err_0)
    } else {
        Ok(
            StyleSheet {
                width: width->Ok_0,
                height: height->Ok_0,
                style: Some(resolved(style->Ok_0)),
            },
        )
    }
}

/// Reads a sheet.
pub fn decode_sheet(v: &Node, local: &ColorMap) -> (r: Result<StyleSheet, Error>)
    ensures
        outcome(r) == sheet_of(v@, local@),
{
    if v.as_table().is_none() {
        return Err(Error::Shape);
    }
    let width = opt_length(v, "width")?;
    let height = opt_length(v, "height")?;
    let style = decode_style_patch(v, local)?;
    Ok(StyleSheet { width, height, style: Some(Style::resolve(&style)) })
}

impl Sheet for StyleSheet {
    open spec fn of(t: Tree, local: Map<Seq<char>, Color>) -> Result<StyleSheet, Fault> {
        sheet_of(t, local)
    }

    open spec fn baseline() -> StyleSheet {
        StyleSheet::plain()
    }

    fn decode(v: &Node, local: &ColorMap) -> (r: Result<StyleSheet, Error>) {
        decode_sheet(v, local)
    }

    fn base() -> (r: StyleSheet) {
        StyleSheet {
            width: None,
            height: None,
            style: Some(Style::resolve(&StylePatch::new())),
        }
    }

    proof fn lemma_empty_is_baseline(local: Map<Seq<char>, Color>) {
        lemma_empty_table(local);
    }

    proof fn lemma_fault_is_of_document(t: Tree, local: Map<Seq<char>, Color>) {
    }
}

/// The style sheets of progress bars, by the names of their variants.
pub type ProgressBar = SheetMap<StyleSheet>;

/// A table without entries writes the sheet that sets nothing.
pub proof fn lemma_empty_table(local: Map<Seq<char>, Color>)
    ensures
        sheet_of(Tree::empty_table(), local) == Ok::<StyleSheet, Fault>(StyleSheet::plain()),
{
    reveal(lookup);
    let t = Tree::empty_table();
    assert(style_patch_of(t, local) == Ok::<StylePatch, Fault>(StylePatch::empty()));
}

} // verus!
