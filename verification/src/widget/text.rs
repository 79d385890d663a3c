//! Text.

use crate::color::{opt_color, opt_color_of, Color, ColorMap};
use crate::decode::{opt_size16, opt_u16_of};
use crate::error::{outcome, Error, Fault};
use crate::layout::{
    opt_horizontal, opt_horizontal_of, opt_length, opt_length_of, opt_vertical, opt_vertical_of,
    Horizontal, Length, Vertical,
};
use crate::node::{lookup, Node, Tree};
use crate::sheets::{Sheet, SheetMap};
use vstd::prelude::*;

verus! {

/// The style sheet of a piece of text: its size, colour and layout.
#[derive(Clone, Copy, Debug, PartialEq, Eq)]
pub struct StyleSheet {
    pub size: Option<u16>,
    pub color: Option<Color>,
    pub width: Option<Length>,
    pub height: Option<Length>,
    pub horizontal_alignment: Option<Horizontal>,
    pub vertical_alignment: Option<Vertical>,
}

impl StyleSheet {
    /// The sheet that sets nothing.
    pub open spec fn plain() -> StyleSheet {
        StyleSheet {
            size: None,
            color: None,
            width: None,
            height: None,
            horizontal_alignment: None,
            vertical_alignment: None,
        }
    }
}

/// The sheet that a table writes.
///
/// The fault is that of the first field, in the order of the declaration, that is at
/// fault.
pub open spec fn sheet_of(t: Tree, local: Map<Seq<char>, Color>) -> Result<StyleSheet, Fault> {
    let size = opt_u16_of(t.field("size"@));
    let color = opt_color_of(t.field("color"@), local);
    let width = opt_length_of(t.field("width"@));
    let height = opt_length_of(t.field("height"@));
    let horizontal_alignment = opt_horizontal_of(t.field("horizontal_alignment"@));
    let vertical_alignment = opt_vertical_of(t.field("vertical_alignment"@));
    if !(t is Table) {
        Err(Fault::Shape)
    } else if size is Err {
        Err(size->Err_0)
    } else if color is Err {
        Err(color->Err_0)
    } else if width is Err {
        Err(width->Err_0)
    } else if height is Err {
        Err(height->Err_0)
    } else if horizontal_alignment is Err {
        Err(horizontal_alignment->Err_0)
    } else if vertical_alignment is Err {
        Err(vertical_alignment->Err_0)
    } else {
        Ok(
            StyleSheet {
                size: size->Ok_0,
                color: color->Ok_0,
                width: width->Ok_0,
                height: height->Ok_0,
                horizontal_alignment: horizontal_alignment->Ok_0,
                vertical_alignment: vertical_alignment->Ok_0,
            },
        )
    }
}

/// Reads a sheet.
pub fn decode_sheet(v: &Node, local: &ColorMap) -> (r: Result<StyleSheet, Error>)
    ensures
        outcome(r) == sheet_of(v@, local@),
{
    if v.as_table().is_none() {
        return Err(Error::Shape);
    }
    let size = opt_size16(v, "size")?;
    let color = opt_color(v, "color", local)?;
    let width = opt_length(v, "width")?;
    let height = opt_length(v, "height")?;
    let horizontal_alignment = opt_horizontal(v, "horizontal_alignment")?;
    let vertical_alignment = opt_vertical(v, "vertical_alignment")?;
    Ok(StyleSheet { size, color, width, height, horizontal_alignment, vertical_alignment })
}

impl Sheet for StyleSheet {
    open spec fn of(t: Tree, local: Map<Seq<char>, Color>) -> Result<StyleSheet, Fault> {
        sheet_of(t, local)
    }

    open spec fn baseline() -> StyleSheet {
        StyleSheet::plain()
    }

    fn decode(v: &Node, local: &ColorMap) -> (r: Result<StyleSheet, Error>) {
        decode_sheet(v, local)
    }

    fn base() -> (r: StyleSheet) {
        StyleSheet {
            size: None,
            color: None,
            width: None,
            height: None,
            horizontal_alignment: None,
            vertical_alignment: None,
        }
    }

    proof fn lemma_empty_is_baseline(local: Map<Seq<char>, Color>) {
        lemma_empty_table(local);
    }

    proof fn lemma_fault_is_of_document(t: Tree, local: Map<Seq<char>, Color>) {
    }
}

/// The style sheets of text, by the names of their variants.
pub type Text = SheetMap<StyleSheet>;

/// A table without entries writes the sheet that sets nothing.
pub proof fn lemma_empty_table(local: Map<Seq<char>, Color>)
    ensures
        sheet_of(Tree::empty_table(), local) == Ok::<StyleSheet, Fault>(StyleSheet::plain()),
{
    reveal(lookup);
}

} // verus!
