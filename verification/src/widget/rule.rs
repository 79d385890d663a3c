//! Rules: the lines that divide content.

use crate::color::{opt_color, opt_color_of, Color, ColorMap};
use crate::decode::{
    opt_scalar, opt_scalar_of, opt_size16, opt_u16_of, scalar, scalar_of, size16, u16_of,
};
use crate::error::{outcome, Error, Fault};
use crate::merge::{merge, overlay};
use crate::node::{Node, Tree};
use crate::number::Scalar;
use crate::strings::same_text;
use vstd::prelude::*;

verus! {

/// How much of its length a rule fills.
#[derive(Clone, Copy, Debug, PartialEq, Eq)]
pub enum FillMode {
    /// All of it.
    Full,
    /// This many hundredths of it, centred.
    Percent(Scalar),
    /// All but this many units at either end.
    Padded(u16),
    /// All but the first number of units at the start and the second at the end.
    AsymmetricPadding(u16, u16),
}

/// The fill mode that a node writes: `"full"`, or a table of the one key `percent` over a
/// number, `padded` over a size, or `asymmetric_padding` over an array of two sizes.
pub open spec fn fill_mode_of(t: Tree) -> Result<FillMode, Fault> {
    match t {
        Tree::Text(s) => if s == "full"@ {
            Ok(FillMode::Full)
        } else {
            Err(Fault::Shape)
        },
        Tree::Table(entries) => if entries.len() != 1 {
            Err(Fault::Shape)
        } else if entries[0].0 == "percent"@ {
            match scalar_of(entries[0].1) {
                Ok(x) => Ok(FillMode::Percent(x)),
                Err(e) => Err(e),
            }
        } else if entries[0].0 == "padded"@ {
            match u16_of(entries[0].1) {
                Ok(n) => Ok(FillMode::Padded(n)),
                Err(e) => Err(e),
            }
        } else if entries[0].0 == "asymmetric_padding"@ {
            match entries[0].1 {
                Tree::List(items) => if items.len() == 2 {
                    match (u16_of(items[0]), u16_of(items[1])) {
                        (Ok(first), Ok(second)) => Ok(FillMode::AsymmetricPadding(first, second)),
                        _ => Err(Fault::Shape),
                    }
                } else {
                    Err(Fault::Shape)
                },
                _ => Err(Fault::Shape),
            }
        } else {
            Err(Fault::Shape)
        },
        _ => Err(Fault::Shape),
    }
}

/// The fill mode of a field that may be left out.
pub open spec fn opt_fill_mode_of(node: Option<Tree>) -> Result<Option<FillMode>, Fault> {
    match node {
        None => Ok(None),
        Some(t) => match fill_mode_of(t) {
            Ok(x) => Ok(Some(x)),
            Err(e) => Err(e),
        },
    }
}

/// Reads a fill mode.
pub fn decode_fill_mode(v: &Node) -> (r: Result<FillMode, Error>)
    ensures
        outcome(r) == fill_mode_of(v@),
{
    match v {
        Node::Text(s) => {
            if same_text(s.as_str(), "full") {
                Ok(FillMode::Full)
            } else {
                Err(Error::Shape)
            }
        },
        Node::Table(entries) => {
            if entries.len() != 1 {
                Err(Error::Shape)
            } else if same_text(entries[0].0.as_str(), "percent") {
                let x = scalar(&entries[0].1)?;
                Ok(FillMode::Percent(x))
            } else if same_text(entries[0].0.as_str(), "padded") {
                let n = size16(&entries[0].1)?;
                Ok(FillMode::Padded(n))
            } else if same_text(entries[0].0.as_str(), "asymmetric_padding") {
                match entries[0].1.as_list() {
                    Some(items) => {
                        if items.len() == 2 {
                            match (size16(&items[0]), size16(&items[1])) {
                                (Ok(first), Ok(second)) => Ok(
                                    FillMode::AsymmetricPadding(first, second),
                                ),
                                _ => Err(Error::Shape),
                            }
                        } else {
                            Err(Error::Shape)
                        }
                    },
                    None => Err(Error::Shape),
                }
            } else {
                Err(Error::Shape)
            }
        },
        _ => Err(Error::Shape),
    }
}

/// Reads the fill mode under `key`, if the key is there.
pub fn opt_fill_mode(v: &Node, key: &str) -> (r: Result<Option<FillMode>, Error>)
    ensures
        outcome(r) == opt_fill_mode_of(v@.field(key@)),
{
    match v.get(key) {
        None => Ok(None),
        Some(t) => match decode_fill_mode(t) {
            Ok(x) => Ok(Some(x)),
            Err(e) => Err(e),
        },
    }
}

/// How a rule looks.
#[derive(Clone, Copy, Debug, PartialEq, Eq)]
pub struct Style {
    pub color: Color,
    pub width: u16,
    pub radius: Scalar,
    pub fill_mode: FillMode,
}

impl Style {
    /// The look of a rule of which nothing is said: grey at half its opacity, one unit wide,
    /// over nine tenths of its length.
    pub open spec fn baseline() -> Style {
        Style {
            color: Color::rgba(
                Scalar::Ratio(60, 100),
                Scalar::Ratio(60, 100),
                Scalar::Ratio(60, 100),
                Scalar::Ratio(51, 100),
            ),
            width: 1,
            radius: Scalar::Integer(0),
            fill_mode: FillMode::Percent(Scalar::Integer(90)),
        }
    }

    /// The look of a rule of which nothing is said.
    pub fn base() -> (r: Style)
        ensures
            r == Style::baseline(),
    {
        Style {
            color: Color::from_rgba(
                Scalar::Ratio(60, 100),
                Scalar::Ratio(60, 100),
                Scalar::Ratio(60, 100),
                Scalar::Ratio(51, 100),
            ),
            width: 1,
            radius: Scalar::Integer(0),
            fill_mode: FillMode::Percent(Scalar::Integer(90)),
        }
    }
}

/// What a document sets of the look of a rule.
#[derive(Clone, Copy, Debug, PartialEq, Eq)]
pub struct StylePatch {
    pub color: Option<Color>,
    pub width: Option<u16>,
    pub radius: Option<Scalar>,
    pub fill_mode: Option<FillMode>,
}

impl StylePatch {
    /// The patch of a style that sets nothing.
    pub open spec fn empty() -> StylePatch {
        StylePatch {
            color: None,
            width: None,
            radius: None,
            fill_mode: None,
        }
    }

    /// The look with what this sets laid over it.
    pub open spec fn over(self, base: Style) -> Style {
        Style {
            color: overlay(base.color, self.color),
            width: overlay(base.width, self.width),
            radius: overlay(base.radius, self.radius),
            fill_mode: overlay(base.fill_mode, self.fill_mode),
        }
    }

    /// A patch that sets nothing leaves what lies under it as it is.
    pub proof fn lemma_empty_keeps(base: Style)
        ensures
            StylePatch::empty().over(base) == base,
    {
    }

    /// The patch of a style that sets nothing.
    pub fn new() -> (r: StylePatch)
        ensures
            r == StylePatch::empty(),
    {
        StylePatch {
            color: None,
            width: None,
            radius: None,
            fill_mode: None,
        }
    }

    /// Lays what this sets over `style`.
    pub fn overwrite(&self, style: &mut Style)
        ensures
            *final(style) == self.over(*old(style)),
    {
        style.color = merge(style.color, self.color);
        style.width = merge(style.width, self.width);
        style.radius = merge(style.radius, self.radius);
        style.fill_mode = merge(style.fill_mode, self.fill_mode);
    }
}

/// The patch of a style that a table writes.
///
/// The fault is that of the first field, in the order of the declaration, that is at fault.
pub open spec fn style_patch_of(
    t: Tree,
    local: Map<Seq<char>, Color>,
) -> Result<StylePatch, Fault> {
    let color = opt_color_of(t.field("color"@), local);
    let width = opt_u16_of(t.field("width"@));
    let radius = opt_scalar_of(t.field("radius"@));
    let fill_mode = opt_fill_mode_of(t.field("fill_mode"@));
    if !(t is Table) {
        Err(Fault::Shape)
    } else if color is Err {
        Err(color->Err_0)
    } else if width is Err {
        Err(width->Err_0)
    } else if radius is Err {
        Err(radius->Err_0)
    } else if fill_mode is Err {
        Err(fill_mode->Err_0)
    } else {
        Ok(
            StylePatch {
                color: color->Ok_0,
                width: width->Ok_0,
                radius: radius->Ok_0,
                fill_mode: fill_mode->Ok_0,
            },
        )
    }
}

/// Reads the patch of a style.
pub fn decode_style_patch(v: &Node, local: &ColorMap) -> (r: Result<StylePatch, Error>)
    ensures
        outcome(r) == style_patch_of(v@, local@),
{
    if v.as_table().is_none() {
        return Err(Error::Shape);
    }
    let color = opt_color(v, "color", local)?;
    let width = opt_size16(v, "width")?;
    let radius = opt_scalar(v, "radius")?;
    let fill_mode = opt_fill_mode(v, "fill_mode")?;
    Ok(StylePatch { color, width, radius, fill_mode })
}

/// The style that the patch of a document resolves to: the baseline under the patch.
pub open spec fn resolved(patch: StylePatch) -> Style {
    patch.over(Style::baseline())
}

impl Style {
    /// Resolves the patch of a document to a style.
    pub fn resolve(patch: &StylePatch) -> (r: Style)
        ensures
            r == resolved(*patch),
    {
        let mut style = Style::base();
        patch.overwrite(&mut style);
        style
    }
}

/// The style sheet of a rule.
#[derive(Clone, Copy, Debug, PartialEq, Eq)]
pub struct Rule {
    pub style: Option<Style>,
}

/// The sheet that a table writes: the style of its fields.
pub open spec fn rule_of(t: Tree, local: Map<Seq<char>, Color>) -> Result<Rule, Fault> {
    match style_patch_of(t, local) {
        Ok(patch) => Ok(Rule { style: Some(resolved(patch)) }),
        Err(e) => Err(e),
    }
}

impl Rule {
    /// Reads the sheet of a rule.
    pub fn decode(v: &Node, local: &ColorMap) -> (r: Result<Rule, Error>)
        ensures
            outcome(r) == rule_of(v@, local@),
    {
        let patch = decode_style_patch(v, local)?;
        Ok(Rule { style: Some(Style::resolve(&patch)) })
    }
}

} // verus!
