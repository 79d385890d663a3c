//! The menu that a pick list opens.

use crate::color::{
    opt_background, opt_background_of, opt_color, opt_color_of, Background, Color, ColorMap,
};
use crate::decode::{opt_scalar, opt_scalar_of};
use crate::error::{outcome, Error, Fault};
use crate::merge::{merge, overlay};
use crate::node::{Node, Tree};
use crate::number::Scalar;
use vstd::prelude::*;

verus! {

/// How the menu of a pick list looks.
#[derive(Clone, Copy, Debug, PartialEq, Eq)]
pub struct Style {
    pub text_color: Color,
    pub background: Background,
    pub border_width: Scalar,
    pub border_color: Color,
    pub selected_text_color: Color,
    pub selected_background: Background,
}

impl Style {
    /// The look of a menu of which nothing is said: black on light grey, and the selected
    /// option white on blue.
    pub open spec fn baseline() -> Style {
        Style {
            text_color: Color::black(),
            background: Background::of(Color::gray(87)),
            border_width: Scalar::Integer(1),
            border_color: Color::gray(70),
            selected_text_color: Color::white(),
            selected_background: Background::of(
                Color::rgb(Scalar::Ratio(40, 100), Scalar::Ratio(40, 100), Scalar::Integer(1)),
            ),
        }
    }

    /// The look of a menu of which nothing is said.
    pub fn base() -> (r: Style)
        ensures
            r == Style::baseline(),
    {
        Style {
            text_color: Color::from_black(),
            background: Background::solid(Color::from_gray(87)),
            border_width: Scalar::Integer(1),
            border_color: Color::from_gray(70),
            selected_text_color: Color::from_white(),
            selected_background: Background::solid(
                Color::from_rgb(Scalar::Ratio(40, 100), Scalar::Ratio(40, 100), Scalar::Integer(1)),
            ),
        }
    }
}

/// What a document sets of the look of a menu.
#[derive(Clone, Copy, Debug, PartialEq, Eq)]
pub struct Patch {
    pub text_color: Option<Color>,
    pub background: Option<Background>,
    pub border_width: Option<Scalar>,
    pub border_color: Option<Color>,
    pub selected_text_color: Option<Color>,
    pub selected_background: Option<Background>,
}

impl Patch {
    /// The patch of a menu that sets nothing.
    pub open spec fn empty() -> Patch {
        Patch {
            text_color: None,
            background: None,
            border_width: None,
            border_color: None,
            selected_text_color: None,
            selected_background: None,
        }
    }

    /// The look with what this sets laid over it.
    pub open spec fn over(self, base: Style) -> Style {
        Style {
            text_color: overlay(base.text_color, self.text_color),
            background: overlay(base.background, self.background),
            border_width: overlay(base.border_width, self.border_width),
            border_color: overlay(base.border_color, self.border_color),
            selected_text_color: overlay(base.selected_text_color, self.selected_text_color),
            selected_background: overlay(base.selected_background, self.selected_background),
        }
    }

    /// A patch that sets nothing leaves what lies under it as it is.
    pub proof fn lemma_empty_keeps(base: Style)
        ensures
            Patch::empty().over(base) == base,
    {
    }

    /// The patch of a menu that sets nothing.
    pub fn new() -> (r: Patch)
        ensures
            r == Patch::empty(),
    {
        Patch {
            text_color: None,
            background: None,
            border_width: None,
            border_color: None,
            selected_text_color: None,
            selected_background: None,
        }
    }

    /// Lays what this sets over `style`.
    pub fn overwrite(&self, style: &mut Style)
        ensures
            *final(style) == self.over(*old(style)),
    {
        style.text_color = merge(style.text_color, self.text_color);
        style.background = merge(style.background, self.background);
        style.border_width = merge(style.border_width, self.border_width);
        style.border_color = merge(style.border_color, self.border_color);
        style.selected_text_color = merge(style.selected_text_color, self.selected_text_color);
        style.selected_background = merge(style.selected_background, self.selected_background);
    }
}

/// The patch of a menu that a table writes.
///
/// The fault is that of the first field, in the order of the declaration, that is at fault.
pub open spec fn patch_of(t: Tree, local: Map<Seq<char>, Color>) -> Result<Patch, Fault> {
    let text_color = opt_color_of(t.field("text_color"@), local);
    let background = opt_background_of(t.field("background"@), local);
    let border_width = opt_scalar_of(t.field("border_width"@));
    let border_color = opt_color_of(t.field("border_color"@), local);
    let selected_text_color = opt_color_of(t.field("selected_text_color"@), local);
    let selected_background = opt_background_of(t.field("selected_background"@), local);
    if !(t is Table) {
        Err(Fault::Shape)
    } else if text_color is Err {
        Err(text_color->Err_0)
    } else if background is Err {
        Err(background->Err_0)
    } else if border_width is Err {
        Err(border_width->Err_0)
    } else if border_color is Err {
        Err(border_color->Err_0)
    } else if selected_text_color is Err {
        Err(selected_text_color->Err_0)
    } else if selected_background is Err {
        Err(selected_background->Err_0)
    } else {
        Ok(
            Patch {
                text_color: text_color->Ok_0,
                background: background->Ok_0,
                border_width: border_width->Ok_0,
                border_color: border_color->Ok_0,
                selected_text_color: selected_text_color->Ok_0,
                selected_background: selected_background->Ok_0,
            },
        )
    }
}

/// Reads the patch of a menu.
pub fn decode_patch(v: &Node, local: &ColorMap) -> (r: Result<Patch, Error>)
    ensures
        outcome(r) == patch_of(v@, local@),
{
    if v.as_table().is_none() {
        return Err(Error::Shape);
    }
    let text_color = opt_color(v, "text_color", local)?;
    let background = opt_background(v, "background", local)?;
    let border_width = opt_scalar(v, "border_width")?;
    let border_color = opt_color(v, "border_color", local)?;
    let selected_text_color = opt_color(v, "selected_text_color", local)?;
    let selected_background = opt_background(v, "selected_background", local)?;
    Ok(
        Patch {
            text_color,
            background,
            border_width,
            border_color,
            selected_text_color,
            selected_background,
        },
    )
}

/// The patch of a menu under a key that may be left out, which then sets nothing.
pub open spec fn patch_at(
    node: Option<Tree>,
    local: Map<Seq<char>, Color>,
) -> Result<Patch, Fault> {
    match node {
        None => Ok(Patch::empty()),
        Some(t) => patch_of(t, local),
    }
}

/// Reads the patch of a menu under `key`, if the key is there.
pub fn decode_patch_at(v: &Node, key: &str, local: &ColorMap) -> (r: Result<Patch, Error>)
    ensures
        outcome(r) == patch_at(v@.field(key@), local@),
{
    match v.get(key) {
        None => Ok(Patch::new()),
        Some(t) => decode_patch(t, local),
    }
}

/// The look that the patch of a document resolves to: the baseline under the patch.
pub open spec fn resolved(patch: Patch) -> Style {
    patch.over(Style::baseline())
}

impl Style {
    /// Resolves the patch of a document to a look.
    pub fn resolve(patch: &Patch) -> (r: Style)
        ensures
            r == resolved(*patch),
    {
        let mut style = Style::base();
        patch.overwrite(&mut style);
        style
    }
}

} // verus!
