//! Sliders.

use crate::color::{color_of, decode_color, opt_color, opt_color_of, Color, ColorMap};
use crate::decode::{
    opt_scalar, opt_scalar_of, opt_size16, opt_u16_of, scalar, scalar_of, size16, u16_of,
};
use crate::error::{outcome, Error, Fault};
use crate::layout::{opt_length, opt_length_of, Length};
use crate::merge::{merge, overlay};
use crate::node::{lookup, Node, Tree};
use crate::number::Scalar;
use crate::sheets::{Sheet, SheetMap};
use crate::strings::same_text;
use vstd::prelude::*;

verus! {

/// The shape of the handle of a slider.
#[derive(Clone, Copy, Debug, PartialEq, Eq)]
pub enum HandleShape {
    /// A disc.
    Circle { radius: Scalar },
    /// A rectangle as high as the slider.
    Rectangle { width: u16, border_radius: Scalar },
}

/// The shape that a node writes: a table of the one key `circle`, over a table with a
/// `radius`, or of the one key `rectangle`, over a table with a `width` and a `border_radius`.
pub open spec fn shape_of(t: Tree) -> Result<HandleShape, Fault> {
    match t {
        Tree::Table(entries) => if entries.len() != 1 {
            Err(Fault::Shape)
        } else if entries[0].0 == "circle"@ {
            match entries[0].1.field("radius"@) {
                Some(radius) => match scalar_of(radius) {
                    Ok(radius) => Ok(HandleShape::Circle { radius }),
                    Err(e) => Err(e),
                },
                None => Err(Fault::Shape),
            }
        } else if entries[0].0 == "rectangle"@ {
            match (entries[0].1.field("width"@), entries[0].1.field("border_radius"@)) {
                (Some(width), Some(border_radius)) => match (
                    u16_of(width),
                    scalar_of(border_radius),
                ) {
                    (Ok(width), Ok(border_radius)) => Ok(
                        HandleShape::Rectangle { width, border_radius },
                    ),
                    _ => Err(Fault::Shape),
                },
                _ => Err(Fault::Shape),
            }
        } else {
            Err(Fault::Shape)
        },
        _ => Err(Fault::Shape),
    }
}

/// The shape of a field that may be left out.
pub open spec fn opt_shape_of(node: Option<Tree>) -> Result<Option<HandleShape>, Fault> {
    match node {
        None => Ok(None),
        Some(t) => match shape_of(t) {
            Ok(x) => Ok(Some(x)),
            Err(e) => Err(e),
        },
    }
}

/// The two colours of the rail that a node writes: an array of two colour literals. The fault
/// is that of the first literal that is at fault.
pub open spec fn rails_of(t: Tree, local: Map<Seq<char>, Color>) -> Result<(Color, Color), Fault> {
    match t {
        Tree::List(items) => if items.len() == 2 {
            match color_of(items[0], local) {
                Err(e) => Err(e),
                Ok(upper) => match color_of(items[1], local) {
                    Err(e) => Err(e),
                    Ok(lower) => Ok((upper, lower)),
                },
            }
        } else {
            Err(Fault::Shape)
        },
        _ => Err(Fault::Shape),
    }
}

/// The colours of the rail of a field that may be left out.
pub open spec fn opt_rails_of(node: Option<Tree>, local: Map<Seq<char>, Color>) -> Result<
    Option<(Color, Color)>,
    Fault,
> {
    match node {
        None => Ok(None),
        Some(t) => match rails_of(t, local) {
            Ok(x) => Ok(Some(x)),
            Err(e) => Err(e),
        },
    }
}

/// Reads the shape of a handle.
pub fn decode_shape(v: &Node) -> (r: Result<HandleShape, Error>)
    ensures
        outcome(r) == shape_of(v@),
{
    let entries = match v.as_table() {
        Some(entries) => entries,
        None => {
            return Err(Error::Shape);
        },
    };
    if entries.len() != 1 {
        return Err(Error::Shape);
    }
    let inner = &entries[0].1;
    if same_text(entries[0].0.as_str(), "circle") {
        match inner.get("radius") {
            Some(radius) => {
                let radius = scalar(radius)?;
                Ok(HandleShape::Circle { radius })
            },
            None => Err(Error::Shape),
        }
    } else if same_text(entries[0].0.as_str(), "rectangle") {
        match (inner.get("width"), inner.get("border_radius")) {
            (Some(width), Some(border_radius)) => match (size16(width), scalar(border_radius)) {
                (Ok(width), Ok(border_radius)) => Ok(
                    HandleShape::Rectangle { width, border_radius },
                ),
                _ => Err(Error::Shape),
            },
            _ => Err(Error::Shape),
        }
    } else {
        Err(Error::Shape)
    }
}

/// Reads the shape under `key`, if the key is there.
pub fn opt_shape(v: &Node, key: &str) -> (r: Result<Option<HandleShape>, Error>)
    ensures
        outcome(r) == opt_shape_of(v@.field(key@)),
{
    match v.get(key) {
        None => Ok(None),
        Some(t) => match decode_shape(t) {
            Ok(x) => Ok(Some(x)),
            Err(e) => Err(e),
        },
    }
}

/// Reads the two colours of a rail.
pub fn decode_rails(v: &Node, local: &ColorMap) -> (r: Result<(Color, Color), Error>)
    ensures
        outcome(r) == rails_of(v@, local@),
{
    match v.as_list() {
        Some(items) => {
            if items.len() == 2 {
                let upper = decode_color(&items[0], local)?;
                let lower = decode_color(&items[1], local)?;
                Ok((upper, lower))
            } else {
                Err(Error::Shape)
            }
        },
        None => Err(Error::Shape),
    }
}

/// Reads the colours of the rail under `key`, if the key is there.
pub fn opt_rails(v: &Node, key: &str, local: &ColorMap) -> (r: Result<
    Option<(Color, Color)>,
    Error,
>)
    ensures
        outcome(r) == opt_rails_of(v@.field(key@), local@),
{
    match v.get(key) {
        None => Ok(None),
        Some(t) => match decode_rails(t, local) {
            Ok(x) => Ok(Some(x)),
            Err(e) => Err(e),
        },
    }
}

/// How the handle of a slider looks.
#[derive(Clone, Copy, Debug, PartialEq, Eq)]
pub struct Handle {
    pub shape: HandleShape,
    pub color: Color,
    pub border_width: Scalar,
    pub border_color: Color,
}

impl Handle {
    /// The look of a handle of which nothing is said: a light rounded rectangle, eight units
    /// wide, with a grey border of one unit.
    pub open spec fn baseline() -> Handle {
        Handle {
            shape: HandleShape::Rectangle { width: 8, border_radius: Scalar::Integer(4) },
            color: Color::gray(95),
            border_width: Scalar::Integer(1),
            border_color: Color::gray(60),
        }
    }

    /// The look of a handle of which nothing is said.
    pub fn base() -> (r: Handle)
        ensures
            r == Handle::baseline(),
    {
        Handle {
            shape: HandleShape::Rectangle { width: 8, border_radius: Scalar::Integer(4) },
            color: Color::from_gray(95),
            border_width: Scalar::Integer(1),
            border_color: Color::from_gray(60),
        }
    }
}

/// What a document sets of the look of a handle.
#[derive(Clone, Copy, Debug, PartialEq, Eq)]
pub struct HandlePatch {
    pub shape: Option<HandleShape>,
    pub color: Option<Color>,
    pub border_width: Option<Scalar>,
    pub border_color: Option<Color>,
}

impl HandlePatch {
    /// The patch of a handle that sets nothing.
    pub open spec fn empty() -> HandlePatch {
        HandlePatch {
            shape: None,
            color: None,
            border_width: None,
            border_color: None,
        }
    }

    /// The look with what this sets laid over it.
    pub open spec fn over(self, base: Handle) -> Handle {
        Handle {
            shape: overlay(base.shape, self.shape),
            color: overlay(base.color, self.color),
            border_width: overlay(base.border_width, self.border_width),
            border_color: overlay(base.border_color, self.border_color),
        }
    }

    /// A patch that sets nothing leaves what lies under it as it is.
    pub proof fn lemma_empty_keeps(base: Handle)
        ensures
            HandlePatch::empty().over(base) == base,
    {
    }

    /// The patch of a handle that sets nothing.
    pub fn new() -> (r: HandlePatch)
        ensures
            r == HandlePatch::empty(),
    {
        HandlePatch {
            shape: None,
            color: None,
            border_width: None,
            border_color: None,
        }
    }

    /// Lays what this sets over `style`.
    pub fn overwrite(&self, style: &mut Handle)
        ensures
            *final(style) == self.over(*old(style)),
    {
        style.shape = merge(style.shape, self.shape);
        style.color = merge(style.color, self.color);
        style.border_width = merge(style.border_width, self.border_width);
        style.border_color = merge(style.border_color, self.border_color);
    }
}

/// The patch of a handle that a table writes.
///
/// The fault is that of the first field, in the order of the declaration, that is at fault.
pub open spec fn handle_patch_of(
    t: Tree,
    local: Map<Seq<char>, Color>,
) -> Result<HandlePatch, Fault> {
    let shape = opt_shape_of(t.field("shape"@));
    let color = opt_color_of(t.field("color"@), local);
    let border_width = opt_scalar_of(t.field("border_width"@));
    let border_color = opt_color_of(t.field("border_color"@), local);
    if !(t is Table) {
        Err(Fault::Shape)
    } else if shape is Err {
        Err(shape->Err_0)
    } else if color is Err {
        Err(color->Err_0)
    } else if border_width is Err {
        Err(border_width->Err_0)
    } else if border_color is Err {
        Err(border_color->Err_0)
    } else {
        Ok(
            HandlePatch {
                shape: shape->Ok_0,
                color: color->Ok_0,
                border_width: border_width->Ok_0,
                border_color: border_color->Ok_0,
            },
        )
    }
}

/// Reads the patch of a handle.
pub fn decode_handle_patch(v: &Node, local: &ColorMap) -> (r: Result<HandlePatch, Error>)
    ensures
        outcome(r) == handle_patch_of(v@, local@),
{
    if v.as_table().is_none() {
        return Err(Error::Shape);
    }
    let shape = opt_shape(v, "shape")?;
    let color = opt_color(v, "color", local)?;
    let border_width = opt_scalar(v, "border_width")?;
    let border_color = opt_color(v, "border_color", local)?;
    Ok(HandlePatch { shape, color, border_width, border_color })
}

/// The patch of a handle under a key that may be left out, which then sets nothing.
pub open spec fn handle_patch_at(
    node: Option<Tree>,
    local: Map<Seq<char>, Color>,
) -> Result<HandlePatch, Fault> {
    match node {
        None => Ok(HandlePatch::empty()),
        Some(t) => handle_patch_of(t, local),
    }
}

/// Reads the patch of a handle under `key`, if the key is there.
pub fn decode_handle_patch_at(
    v: &Node,
    key: &str,
    local: &ColorMap,
) -> (r: Result<HandlePatch, Error>)
    ensures
        outcome(r) == handle_patch_at(v@.field(key@), local@),
{
    match v.get(key) {
        None => Ok(HandlePatch::new()),
        Some(t) => decode_handle_patch(t, local),
    }
}

/// How a slider looks in one of its states.
#[derive(Clone, Copy, Debug, PartialEq, Eq)]
pub struct Appearance {
    pub rail_colors: (Color, Color),
    pub handle: Handle,
}

impl Appearance {
    /// The look of a slider of which nothing is said: a rail of grey at half its opacity over
    /// white, and the handle of which nothing is said.
    pub open spec fn baseline() -> Appearance {
        Appearance {
            rail_colors: (
                Color::rgba(
                    Scalar::Ratio(60, 100),
                    Scalar::Ratio(60, 100),
                    Scalar::Ratio(60, 100),
                    Scalar::Ratio(50, 100),
                ),
                Color::white(),
            ),
            handle: Handle::baseline(),
        }
    }

    /// The look of a slider of which nothing is said.
    pub fn base() -> (r: Appearance)
        ensures
            r == Appearance::baseline(),
    {
        Appearance {
            rail_colors: (
                Color::from_rgba(
                    Scalar::Ratio(60, 100),
                    Scalar::Ratio(60, 100),
                    Scalar::Ratio(60, 100),
                    Scalar::Ratio(50, 100),
                ),
                Color::from_white(),
            ),
            handle: Handle::base(),
        }
    }
}

/// What a document sets of the look of one state.
#[derive(Clone, Copy, Debug, PartialEq, Eq)]
pub struct Patch {
    pub rail_colors: Option<(Color, Color)>,
    pub handle: HandlePatch,
}

impl Patch {
    /// The patch of a state that sets nothing.
    pub open spec fn empty() -> Patch {
        Patch {
            rail_colors: None,
            handle: HandlePatch::empty(),
        }
    }

    /// The look with what this sets laid over it.
    pub open spec fn over(self, base: Appearance) -> Appearance {
        Appearance {
            rail_colors: overlay(base.rail_colors, self.rail_colors),
            handle: self.handle.over(base.handle),
        }
    }

    /// A patch that sets nothing leaves what lies under it as it is.
    pub proof fn lemma_empty_keeps(base: Appearance)
        ensures
            Patch::empty().over(base) == base,
    {
    }

    /// The patch of a state that sets nothing.
    pub fn new() -> (r: Patch)
        ensures
            r == Patch::empty(),
    {
        Patch {
            rail_colors: None,
            handle: HandlePatch::new(),
        }
    }

    /// Lays what this sets over `style`.
    pub fn overwrite(&self, style: &mut Appearance)
        ensures
            *final(style) == self.over(*old(style)),
    {
        style.rail_colors = merge(style.rail_colors, self.rail_colors);
        self.handle.overwrite(&mut style.handle);
    }
}

/// The patch of a state that a table writes.
///
/// The fault is that of the first field, in the order of the declaration, that is at fault.
pub open spec fn patch_of(t: Tree, local: Map<Seq<char>, Color>) -> Result<Patch, Fault> {
    let rail_colors = opt_rails_of(t.field("rail_colors"@), local);
    let handle = handle_patch_at(t.field("handle"@), local);
    if !(t is Table) {
        Err(Fault::Shape)
    } else if rail_colors is Err {
        Err(rail_colors->Err_0)
    } else if handle is Err {
        Err(handle->Err_0)
    } else {
        Ok(
            Patch {
                rail_colors: rail_colors->Ok_0,
                handle: handle->Ok_0,
            },
        )
    }
}

/// Reads the patch of a state.
pub fn decode_patch(v: &Node, local: &ColorMap) -> (r: Result<Patch, Error>)
    ensures
        outcome(r) == patch_of(v@, local@),
{
    if v.as_table().is_none() {
        return Err(Error::Shape);
    }
    let rail_colors = opt_rails(v, "rail_colors", local)?;
    let handle = decode_handle_patch_at(v, "handle", local)?;
    Ok(Patch { rail_colors, handle })
}

/// The patch of a state under a key that may be left out, which then sets nothing.
pub open spec fn patch_at(
    node: Option<Tree>,
    local: Map<Seq<char>, Color>,
) -> Result<Patch, Fault> {
    match node {
        None => Ok(Patch::empty()),
        Some(t) => patch_of(t, local),
    }
}

/// Reads the patch of a state under `key`, if the key is there.
pub fn decode_patch_at(v: &Node, key: &str, local: &ColorMap) -> (r: Result<Patch, Error>)
    ensures
        outcome(r) == patch_at(v@.field(key@), local@),
{
    match v.get(key) {
        None => Ok(Patch::new()),
        Some(t) => decode_patch(t, local),
    }
}

/// What a document sets of the three states of a slider.
#[derive(Clone, Copy, Debug, PartialEq, Eq)]
pub struct StylePatch {
    pub active: Patch,
    pub hovered: Patch,
    pub dragging: Patch,
}

impl StylePatch {
    /// The patches of a style that sets nothing.
    pub open spec fn empty() -> StylePatch {
        StylePatch {
            active: Patch::empty(),
            hovered: Patch::empty(),
            dragging: Patch::empty(),
        }
    }

    /// The patches of a style that sets nothing.
    pub fn new() -> (r: StylePatch)
        ensures
            r == StylePatch::empty(),
    {
        StylePatch {
            active: Patch::new(),
            hovered: Patch::new(),
            dragging: Patch::new(),
        }
    }
}

/// The patches of a style that a table writes.
///
/// The fault is that of the first field, in the order of the declaration, that is at fault.
pub open spec fn style_patch_of(
    t: Tree,
    local: Map<Seq<char>, Color>,
) -> Result<StylePatch, Fault> {
    let active = patch_at(t.field("active"@), local);
    let hovered = patch_at(t.field("hovered"@), local);
    let dragging = patch_at(t.field("dragging"@), local);
    if !(t is Table) {
        Err(Fault::Shape)
    } else if active is Err {
        Err(active->Err_0)
    } else if hovered is Err {
        Err(hovered->Err_0)
    } else if dragging is Err {
        Err(dragging->Err_0)
    } else {
        Ok(
            StylePatch {
                active: active->Ok_0,
                hovered: hovered->Ok_0,
                dragging: dragging->Ok_0,
            },
        )
    }
}

/// Reads the patches of a style.
pub fn decode_style_patch(v: &Node, local: &ColorMap) -> (r: Result<StylePatch, Error>)
    ensures
        outcome(r) == style_patch_of(v@, local@),
{
    if v.as_table().is_none() {
        return Err(Error::Shape);
    }
    let active = decode_patch_at(v, "active", local)?;
    let hovered = decode_patch_at(v, "hovered", local)?;
    let dragging = decode_patch_at(v, "dragging", local)?;
    Ok(StylePatch { active, hovered, dragging })
}

/// The look of a slider in each of its states.
#[derive(Clone, Copy, Debug, PartialEq, Eq)]
pub struct Style {
    pub active: Appearance,
    pub hovered: Appearance,
    pub dragging: Appearance,
}

/// The look of the active state with a handle of the grey of `n` hundredths.
pub open spec fn with_handle_gray(active: Appearance, n: u8) -> Appearance {
    Appearance { handle: Handle { color: Color::gray(n), ..active.handle }, ..active }
}

/// The style that the patches of a document resolve to.
///
/// The active state is the baseline under its patch. The hovered and the dragging state
/// start from the resolved active state with a darker handle, the dragging one darker than
/// the hovered one, and each lies under its own patch.
pub open spec fn resolved(patch: StylePatch) -> Style {
    let active = patch.active.over(Appearance::baseline());
    Style {
        active,
        hovered: patch.hovered.over(with_handle_gray(active, 90)),
        dragging: patch.dragging.over(with_handle_gray(active, 85)),
    }
}

impl Style {
    /// Resolves the patches of a document to a style.
    pub fn resolve(patch: &StylePatch) -> (r: Style)
        ensures
            r == resolved(*patch),
    {
        let mut active = Appearance::base();
        patch.active.overwrite(&mut active);

        let mut hovered = active;
        hovered.handle.color = Color::from_gray(90);
        patch.hovered.overwrite(&mut hovered);

        let mut dragging = active;
        dragging.handle.color = Color::from_gray(85);
        patch.dragging.overwrite(&mut dragging);

        Style { active, hovered, dragging }
    }
}

/// The style sheet of a slider: its layout and its style.
#[derive(Clone, Copy, Debug, PartialEq, Eq)]
pub struct StyleSheet {
    pub width: Option<Length>,
    pub height: Option<u16>,
    pub style: Option<Style>,
}

impl StyleSheet {
    /// The sheet that sets nothing: no layout, and the style of an empty patch.
    pub open spec fn plain() -> StyleSheet {
        StyleSheet {
            width: None,
            height: None,
            style: Some(resolved(StylePatch::empty())),
        }
    }
}

/// The sheet that a table writes.
///
/// The fields of the style stand in the same table as those of the layout. The fault is
/// that of the first field, in the order of the declaration, that is at fault.
pub open spec fn sheet_of(t: Tree, local: Map<Seq<char>, Color>) -> Result<StyleSheet, Fault> {
    let width = opt_length_of(t.field("width"@));
    let height = opt_u16_of(t.field("height"@));
    let style = style_patch_of(t, local);
    if !(t is Table) {
        Err(Fault::Shape)
    } else if width is Err {
        Err(width->Err_0)
    } else if height is Err {
        Err(height->Err_0)
    } else if style is Err {
        Err(style->Err_0)
    } else {
        Ok(
            StyleSheet {
                width: width->Ok_0,
                height: height->Ok_0,
                style: Some(resolved(style->Ok_0)),
            },
        )
    }
}

/// Reads a sheet.
pub fn decode_sheet(v: &Node, local: &ColorMap) -> (r: Result<StyleSheet, Error>)
    ensures
        outcome(r) == sheet_of(v@, local@),
{
    if v.as_table().is_none() {
        return Err(Error::Shape);
    }
    let width = opt_length(v, "width")?;
    let height = opt_size16(v, "height")?;
    let style = decode_style_patch(v, local)?;
    Ok(StyleSheet { width, height, style: Some(Style::resolve(&style)) })
}

impl Sheet for StyleSheet {
    open spec fn of(t: Tree, local: Map<Seq<char>, Color>) -> Result<StyleSheet, Fault> {
        sheet_of(t, local)
    }

    open spec fn baseline() -> StyleSheet {
        StyleSheet::plain()
    }

    fn decode(v: &Node, local: &ColorMap) -> (r: Result<StyleSheet, Error>) {
        decode_sheet(v, local)
    }

    fn base() -> (r: StyleSheet) {
        StyleSheet {
            width: None,
            height: None,
            style: Some(Style::resolve(&StylePatch::new())),
        }
    }

    proof fn lemma_empty_is_baseline(local: Map<Seq<char>, Color>) {
        lemma_empty_table(local);
    }

    proof fn lemma_fault_is_of_document(t: Tree, local: Map<Seq<char>, Color>) {
    }
}

/// The style sheets of sliders, by the names of their variants.
pub type Slider = SheetMap<StyleSheet>;

/// A table without entries writes the sheet that sets nothing.
pub proof fn lemma_empty_table(local: Map<Seq<char>, Color>)
    ensures
        sheet_of(Tree::empty_table(), local) == Ok::<StyleSheet, Fault>(StyleSheet::plain()),
{
    reveal(lookup);
    let t = Tree::empty_table();
    assert(handle_patch_at(t.field("handle"@), local) == Ok::<HandlePatch, Fault>(
        HandlePatch::empty(),
    ));
    assert(patch_at(t.field("active"@), local) == Ok::<Patch, Fault>(Patch::empty()));
    assert(style_patch_of(t, local) == Ok::<StylePatch, Fault>(StylePatch::empty()));
}

} // verus!
