//! Image viewers.

use crate::color::{Color, ColorMap};
use crate::decode::{opt_scalar, opt_scalar_of, opt_size16, opt_u16_of};
use crate::error::{outcome, Error, Fault};
use crate::layout::{opt_length, opt_length_of, Length};
use crate::node::{lookup, Node, Tree};
use crate::number::Scalar;
use crate::sheets::{Sheet, SheetMap};
use vstd::prelude::*;

verus! {

/// The style sheet of an image viewer: its layout and the bounds of its zoom.
#[derive(Clone, Copy, Debug, PartialEq, Eq)]
pub struct StyleSheet {
    pub padding: Option<u16>,
    pub width: Option<Length>,
    pub height: Option<Length>,
    pub min_scale: Option<Scalar>,
    pub max_scale: Option<Scalar>,
    pub scale_step: Option<Scalar>,
}

impl StyleSheet {
    /// The sheet that sets nothing.
    pub open spec fn plain() -> StyleSheet {
        StyleSheet {
            padding: None,
            width: None,
            height: None,
            min_scale: None,
            max_scale: None,
            scale_step: None,
        }
    }
}

/// The sheet that a table writes.
///
/// The fault is that of the first field, in the order of the declaration, that is at
/// fault.
pub open spec fn sheet_of(t: Tree, local: Map<Seq<char>, Color>) -> Result<StyleSheet, Fault> {
    let padding = opt_u16_of(t.field("padding"@));
    let width = opt_length_of(t.field("width"@));
    let height = opt_length_of(t.field("height"@));
    let min_scale = opt_scalar_of(t.field("min_scale"@));
    let max_scale = opt_scalar_of(t.field("max_scale"@));
    let scale_step = opt_scalar_of(t.field("scale_step"@));
    if !(t is Table) {
        Err(Fault::Shape)
    } else if padding is Err {
        Err(padding->Err_0)
    } else if width is Err {
        Err(width->Err_0)
    } else if height is Err {
        Err(height->Err_0)
    } else if min_scale is Err {
        Err(min_scale->Err_0)
    } else if max_scale is Err {
        Err(max_scale->Err_0)
    } else if scale_step is Err {
        Err(scale_step->Err_0)
    } else {
        Ok(
            StyleSheet {
                padding: padding->Ok_0,
                width: width->Ok_0,
                height: height->Ok_0,
                min_scale: min_scale->Ok_0,
                max_scale: max_scale->Ok_0,
                scale_step: scale_step->Ok_0,
            },
        )
    }
}

/// Reads a sheet.
pub fn decode_sheet(v: &Node, local: &ColorMap) -> (r: Result<StyleSheet, Error>)
    ensures
        outcome(r) == sheet_of(v@, local@),
{
    if v.as_table().is_none() {
        return Err(Error::Shape);
    }
    let padding = opt_size16(v, "padding")?;
    let width = opt_length(v, "width")?;
    let height = opt_length(v, "height")?;
    let min_scale = opt_scalar(v, "min_scale")?;
    let max_scale = opt_scalar(v, "max_scale")?;
    let scale_step = opt_scalar(v, "scale_step")?;
    Ok(StyleSheet { padding, width, height, min_scale, max_scale, scale_step })
}

impl Sheet for StyleSheet {
    open spec fn of(t: Tree, local: Map<Seq<char>, Color>) -> Result<StyleSheet, Fault> {
        sheet_of(t, local)
    }

    open spec fn baseline() -> StyleSheet {
        StyleSheet::plain()
    }

    fn decode(v: &Node, local: &ColorMap) -> (r: Result<StyleSheet, Error>) {
        decode_sheet(v, local)
    }

    fn base() -> (r: StyleSheet) {
        StyleSheet {
            padding: None,
            width: None,
            height: None,
            min_scale: None,
            max_scale: None,
            scale_step: None,
        }
    }

    proof fn lemma_empty_is_baseline(local: Map<Seq<char>, Color>) {
        lemma_empty_table(local);
    }

    proof fn lemma_fault_is_of_document(t: Tree, local: Map<Seq<char>, Color>) {
    }
}

/// The style sheets of image viewers, by the names of their variants.
pub type Viewer = SheetMap<StyleSheet>;

/// A table without entries writes the sheet that sets nothing.
pub proof fn lemma_empty_table(local: Map<Seq<char>, Color>)
    ensures
        sheet_of(Tree::empty_table(), local) == Ok::<StyleSheet, Fault>(StyleSheet::plain()),
{
    reveal(lookup);
}

} // verus!
