//! QR codes.

use crate::color::{opt_color, opt_color_of, Color, ColorMap};
use crate::decode::{opt_size16, opt_u16_of};
use crate::error::{outcome, Error, Fault};
use crate::merge::{merge, overlay};
use crate::node::{lookup, Node, Tree};
use crate::sheets::{Sheet, SheetMap};
use vstd::prelude::*;

verus! {

/// The style sheet of a QR code: its two colours and the size of a cell.
#[derive(Clone, Copy, Debug, PartialEq, Eq)]
pub struct StyleSheet {
    pub dark: Option<Color>,
    pub light: Option<Color>,
    pub cell_size: Option<u16>,
}

impl StyleSheet {
    /// The sheet that sets nothing.
    pub open spec fn plain() -> StyleSheet {
        StyleSheet {
            dark: None,
            light: None,
            cell_size: None,
        }
    }
}

/// The sheet that a table writes.
///
/// The fault is that of the first field, in the order of the declaration, that is at
/// fault.
pub open spec fn sheet_of(t: Tree, local: Map<Seq<char>, Color>) -> Result<StyleSheet, Fault> {
    let dark = opt_color_of(t.field("dark"@), local);
    let light = opt_color_of(t.field("light"@), local);
    let cell_size = opt_u16_of(t.field("cell_size"@));
    if !(t is Table) {
        Err(Fault::Shape)
    } else if dark is Err {
        Err(dark->Err_0)
    } else if light is Err {
        Err(light->Err_0)
    } else if cell_size is Err {
        Err(cell_size->Err_0)
    } else {
        Ok(
            StyleSheet {
                dark: dark->Ok_0,
                light: light->Ok_0,
                cell_size: cell_size->Ok_0,
            },
        )
    }
}

/// Reads a sheet.
pub fn decode_sheet(v: &Node, local: &ColorMap) -> (r: Result<StyleSheet, Error>)
    ensures
        outcome(r) == sheet_of(v@, local@),
{
    if v.as_table().is_none() {
        return Err(Error::Shape);
    }
    let dark = opt_color(v, "dark", local)?;
    let light = opt_color(v, "light", local)?;
    let cell_size = opt_size16(v, "cell_size")?;
    Ok(StyleSheet { dark, light, cell_size })
}

impl Sheet for StyleSheet {
    open spec fn of(t: Tree, local: Map<Seq<char>, Color>) -> Result<StyleSheet, Fault> {
        sheet_of(t, local)
    }

    open spec fn baseline() -> StyleSheet {
        StyleSheet::plain()
    }

    fn decode(v: &Node, local: &ColorMap) -> (r: Result<StyleSheet, Error>) {
        decode_sheet(v, local)
    }

    fn base() -> (r: StyleSheet) {
        StyleSheet {
            dark: None,
            light: None,
            cell_size: None,
        }
    }

    proof fn lemma_empty_is_baseline(local: Map<Seq<char>, Color>) {
        lemma_empty_table(local);
    }

    proof fn lemma_fault_is_of_document(t: Tree, local: Map<Seq<char>, Color>) {
    }
}

/// The style sheets of QR codes, by the names of their variants.
pub type QRCode = SheetMap<StyleSheet>;

/// A table without entries writes the sheet that sets nothing.
pub proof fn lemma_empty_table(local: Map<Seq<char>, Color>)
    ensures
        sheet_of(Tree::empty_table(), local) == Ok::<StyleSheet, Fault>(StyleSheet::plain()),
{
    reveal(lookup);
}

impl StyleSheet {
    /// The two colours in which the code is drawn, where the sheet sets one of them: the
    /// dark one, black if it is not set, and the light one, white if it is not set.
    pub open spec fn palette(self) -> Option<(Color, Color)> {
        if self.dark is Some || self.light is Some {
            Some((overlay(Color::black(), self.dark), overlay(Color::white(), self.light)))
        } else {
            None
        }
    }

    /// The two colours in which the code is drawn, where the sheet sets one of them.
    pub fn colors(&self) -> (r: Option<(Color, Color)>)
        ensures
            r == self.palette(),
    {
        if self.dark.is_some() || self.light.is_some() {
            Some((merge(Color::from_black(), self.dark), merge(Color::from_white(), self.light)))
        } else {
            None
        }
    }
}

} // verus!
