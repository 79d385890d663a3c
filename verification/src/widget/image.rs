//! Images.

use crate::color::{Color, ColorMap};
use crate::error::{outcome, Error, Fault};
use crate::layout::{opt_length, opt_length_of, Length};
use crate::node::{lookup, Node, Tree};
use crate::sheets::{Sheet, SheetMap};
use vstd::prelude::*;

verus! {

/// The style sheet of an image: its layout.
#[derive(Clone, Copy, Debug, PartialEq, Eq)]
pub struct StyleSheet {
    pub width: Option<Length>,
    pub height: Option<Length>,
}

impl StyleSheet {
    /// The sheet that sets nothing.
    pub open spec fn plain() -> StyleSheet {
        StyleSheet {
            width: None,
            height: None,
        }
    }
}

/// The sheet that a table writes.
///
/// The fault is that of the first field, in the order of the declaration, that is at
/// fault.
pub open spec fn sheet_of(t: Tree, local: Map<Seq<char>, Color>) -> Result<StyleSheet, Fault> {
    let width = opt_length_of(t.field("width"@));
    let height = opt_length_of(t.field("height"@));
    if !(t is Table) {
        Err(Fault::Shape)
    } else if width is Err {
        Err(width->Err_0)
    } else if height is Err {
        Err(height->Err_0)
    } else {
        Ok(
            StyleSheet {
                width: width->Ok_0,
                height: height->Ok_0,
            },
        )
    }
}

/// Reads a sheet.
pub fn decode_sheet(v: &Node, local: &ColorMap) -> (r: Result<StyleSheet, Error>)
    ensures
        outcome(r) == sheet_of(v@, local@),
{
    if v.as_table().is_none() {
        return Err(Error::Shape);
    }
    let width = opt_length(v, "width")?;
    let height = opt_length(v, "height")?;
    Ok(StyleSheet { width, height })
}

impl Sheet for StyleSheet {
    open spec fn of(t: Tree, local: Map<Seq<char>, Color>) -> Result<StyleSheet, Fault> {
        sheet_of(t, local)
    }

    open spec fn baseline() -> StyleSheet {
        StyleSheet::plain()
    }

    fn decode(v: &Node, local: &ColorMap) -> (r: Result<StyleSheet, Error>) {
        decode_sheet(v, local)
    }

    fn base() -> (r: StyleSheet) {
        StyleSheet {
            width: None,
            height: None,
        }
    }

    proof fn lemma_empty_is_baseline(local: Map<Seq<char>, Color>) {
        lemma_empty_table(local);
    }

    proof fn lemma_fault_is_of_document(t: Tree, local: Map<Seq<char>, Color>) {
    }
}

/// The style sheets of images, by the names of their variants.
pub type Image = SheetMap<StyleSheet>;

/// A table without entries writes the sheet that sets nothing.
pub proof fn lemma_empty_table(local: Map<Seq<char>, Color>)
    ensures
        sheet_of(Tree::empty_table(), local) == Ok::<StyleSheet, Fault>(StyleSheet::plain()),
{
    reveal(lookup);
}

} // verus!
