//! Sizes, alignments and offsets of a widget.

use crate::decode::{scalar, scalar_of, size16, u16_of};
use crate::error::{outcome, Error, Fault};
use crate::node::{Node, Tree};
use crate::number::{one_more, Scalar};
use crate::strings::same_text;
use vstd::prelude::*;

verus! {

/// How a widget fills a dimension.
#[derive(Clone, Copy, Debug, PartialEq, Eq)]
pub enum Length {
    /// All the room that is left.
    Fill,
    /// A share of the room that is left, against the shares of the neighbours.
    FillPortion(u16),
    /// As little as the content needs.
    Shrink,
    /// A fixed number of units.
    Units(u16),
}

/// Where items lie along an axis.
#[derive(Clone, Copy, Debug, PartialEq, Eq)]
pub enum Alignment {
    Start,
    Center,
    End,
    Fill,
}

/// Where content lies from left to right.
#[derive(Clone, Copy, Debug, PartialEq, Eq)]
pub enum Horizontal {
    Left,
    Center,
    Right,
}

/// Where content lies from top to bottom.
#[derive(Clone, Copy, Debug, PartialEq, Eq)]
pub enum Vertical {
    Top,
    Center,
    Bottom,
}

/// An offset in the plane.
///
/// The offset that counts is `(x, y)` moved down by one unit `steps` times.
#[derive(Clone, Copy, Debug, PartialEq, Eq)]
pub struct Vector {
    pub x: Scalar,
    pub y: Scalar,
    pub steps: u8,
}

/// `y` and one more, `n` times.
pub open spec fn stepped(y: Option<real>, n: nat) -> Option<real>
    decreases n,
{
    if n == 0 {
        y
    } else {
        one_more(stepped(y, (n - 1) as nat))
    }
}

impl Vector {
    /// The offset `(x, y)`.
    pub open spec fn at(x: Scalar, y: Scalar) -> Vector {
        Vector { x, y, steps: 0 }
    }

    /// No offset.
    pub open spec fn zero() -> Vector {
        Vector::at(Scalar::Integer(0), Scalar::Integer(0))
    }

    /// This offset moved down by one unit.
    ///
    /// An offset that has been moved 255 times stays as it is.
    pub open spec fn lowered(self) -> Vector {
        Vector {
            steps: if self.steps < 255 {
                (self.steps + 1) as u8
            } else {
                self.steps
            },
            ..self
        }
    }

    /// Where the offset points: `x` to the right and `y` down, and one more down for each
    /// step.
    pub open spec fn place(self) -> (Option<real>, Option<real>) {
        (self.x.value(), stepped(self.y.value(), self.steps as nat))
    }

    /// An offset that is lowered points one unit further down, as long as it has been lowered
    /// fewer than 255 times.
    pub proof fn lemma_lowering_moves_down(self)
        requires
            self.steps < 255,
        ensures
            self.lowered().place() == (self.place().0, one_more(self.place().1)),
    {
    }

    /// The offset `(x, y)`.
    pub fn new(x: Scalar, y: Scalar) -> (r: Vector)
        ensures
            r == Vector::at(x, y),
    {
        Vector { x, y, steps: 0 }
    }

    /// No offset.
    pub fn origin() -> (r: Vector)
        ensures
            r == Vector::zero(),
    {
        Vector { x: Scalar::Integer(0), y: Scalar::Integer(0), steps: 0 }
    }

    /// This offset moved down by one unit.
    pub fn lower(self) -> (r: Vector)
        ensures
            r == self.lowered(),
    {
        let steps = if self.steps < 255 {
            self.steps + 1
        } else {
            self.steps
        };
        Vector { x: self.x, y: self.y, steps }
    }
}

/// The length that a node writes: `"fill"`, `"shrink"`, or a table of the one key
/// `fill_portion` or `units` with its size.
pub open spec fn length_of(t: Tree) -> Result<Length, Fault> {
    match t {
        Tree::Text(s) => if s == "fill"@ {
            Ok(Length::Fill)
        } else if s == "shrink"@ {
            Ok(Length::Shrink)
        } else {
            Err(Fault::Shape)
        },
        Tree::Table(entries) => if entries.len() != 1 {
            Err(Fault::Shape)
        } else if entries[0].0 == "fill_portion"@ {
            match u16_of(entries[0].1) {
                Ok(n) => Ok(Length::FillPortion(n)),
                Err(e) => Err(e),
            }
        } else if entries[0].0 == "units"@ {
            match u16_of(entries[0].1) {
                Ok(n) => Ok(Length::Units(n)),
                Err(e) => Err(e),
            }
        } else {
            Err(Fault::Shape)
        },
        _ => Err(Fault::Shape),
    }
}

/// The alignment that a node writes: `"start"`, `"center"`, `"end"` or `"fill"`.
pub open spec fn alignment_of(t: Tree) -> Result<Alignment, Fault> {
    match t {
        Tree::Text(s) => if s == "start"@ {
            Ok(Alignment::Start)
        } else if s == "center"@ {
            Ok(Alignment::Center)
        } else if s == "end"@ {
            Ok(Alignment::End)
        } else if s == "fill"@ {
            Ok(Alignment::Fill)
        } else {
            Err(Fault::Shape)
        },
        _ => Err(Fault::Shape),
    }
}

/// The horizontal alignment that a node writes: `"left"`, `"center"` or `"right"`.
pub open spec fn horizontal_of(t: Tree) -> Result<Horizontal, Fault> {
    match t {
        Tree::Text(s) => if s == "left"@ {
            Ok(Horizontal::Left)
        } else if s == "center"@ {
            Ok(Horizontal::Center)
        } else if s == "right"@ {
            Ok(Horizontal::Right)
        } else {
            Err(Fault::Shape)
        },
        _ => Err(Fault::Shape),
    }
}

/// The vertical alignment that a node writes: `"top"`, `"center"` or `"bottom"`.
pub open spec fn vertical_of(t: Tree) -> Result<Vertical, Fault> {
    match t {
        Tree::Text(s) => if s == "top"@ {
            Ok(Vertical::Top)
        } else if s == "center"@ {
            Ok(Vertical::Center)
        } else if s == "bottom"@ {
            Ok(Vertical::Bottom)
        } else {
            Err(Fault::Shape)
        },
        _ => Err(Fault::Shape),
    }
}

/// The offset that a node writes: an array of two numbers, or a table with a number under
/// `x` and one under `y`.
pub open spec fn vector_of(t: Tree) -> Result<Vector, Fault> {
    match t {
        Tree::List(items) => if items.len() == 2 {
            match (scalar_of(items[0]), scalar_of(items[1])) {
                (Ok(x), Ok(y)) => Ok(Vector::at(x, y)),
                _ => Err(Fault::Shape),
            }
        } else {
            Err(Fault::Shape)
        },
        Tree::Table(_) => match (t.field("x"@), t.field("y"@)) {
            (Some(tx), Some(ty)) => match (scalar_of(tx), scalar_of(ty)) {
                (Ok(x), Ok(y)) => Ok(Vector::at(x, y)),
                _ => Err(Fault::Shape),
            },
            _ => Err(Fault::Shape),
        },
        _ => Err(Fault::Shape),
    }
}

/// The length of a field that may be left out.
pub open spec fn opt_length_of(node: Option<Tree>) -> Result<Option<Length>, Fault> {
    match node {
        None => Ok(None),
        Some(t) => match length_of(t) {
            Ok(x) => Ok(Some(x)),
            Err(e) => Err(e),
        },
    }
}

/// The alignment of a field that may be left out.
pub open spec fn opt_alignment_of(node: Option<Tree>) -> Result<Option<Alignment>, Fault> {
    match node {
        None => Ok(None),
        Some(t) => match alignment_of(t) {
            Ok(x) => Ok(Some(x)),
            Err(e) => Err(e),
        },
    }
}

/// The horizontal alignment of a field that may be left out.
pub open spec fn opt_horizontal_of(node: Option<Tree>) -> Result<Option<Horizontal>, Fault> {
    match node {
        None => Ok(None),
        Some(t) => match horizontal_of(t) {
            Ok(x) => Ok(Some(x)),
            Err(e) => Err(e),
        },
    }
}

/// The vertical alignment of a field that may be left out.
pub open spec fn opt_vertical_of(node: Option<Tree>) -> Result<Option<Vertical>, Fault> {
    match node {
        None => Ok(None),
        Some(t) => match vertical_of(t) {
            Ok(x) => Ok(Some(x)),
            Err(e) => Err(e),
        },
    }
}

/// The offset of a field that may be left out.
pub open spec fn opt_vector_of(node: Option<Tree>) -> Result<Option<Vector>, Fault> {
    match node {
        None => Ok(None),
        Some(t) => match vector_of(t) {
            Ok(x) => Ok(Some(x)),
            Err(e) => Err(e),
        },
    }
}

/// Reads a length.
pub fn decode_length(v: &Node) -> (r: Result<Length, Error>)
    ensures
        outcome(r) == length_of(v@),
{
    match v {
        Node::Text(s) => {
            if same_text(s.as_str(), "fill") {
                Ok(Length::Fill)
            } else if same_text(s.as_str(), "shrink") {
                Ok(Length::Shrink)
            } else {
                Err(Error::Shape)
            }
        },
        Node::Table(entries) => {
            if entries.len() != 1 {
                Err(Error::Shape)
            } else if same_text(entries[0].0.as_str(), "fill_portion") {
                let n = size16(&entries[0].1)?;
                Ok(Length::FillPortion(n))
            } else if same_text(entries[0].0.as_str(), "units") {
                let n = size16(&entries[0].1)?;
                Ok(Length::Units(n))
            } else {
                Err(Error::Shape)
            }
        },
        _ => Err(Error::Shape),
    }
}

/// Reads an alignment.
pub fn decode_alignment(v: &Node) -> (r: Result<Alignment, Error>)
    ensures
        outcome(r) == alignment_of(v@),
{
    match v {
        Node::Text(s) => {
            if same_text(s.as_str(), "start") {
                Ok(Alignment::Start)
            } else if same_text(s.as_str(), "center") {
                Ok(Alignment::Center)
            } else if same_text(s.as_str(), "end") {
                Ok(Alignment::End)
            } else if same_text(s.as_str(), "fill") {
                Ok(Alignment::Fill)
            } else {
                Err(Error::Shape)
            }
        },
        _ => Err(Error::Shape),
    }
}

/// Reads a horizontal alignment.
pub fn decode_horizontal(v: &Node) -> (r: Result<Horizontal, Error>)
    ensures
        outcome(r) == horizontal_of(v@),
{
    match v {
        Node::Text(s) => {
            if same_text(s.as_str(), "left") {
                Ok(Horizontal::Left)
            } else if same_text(s.as_str(), "center") {
                Ok(Horizontal::Center)
            } else if same_text(s.as_str(), "right") {
                Ok(Horizontal::Right)
            } else {
                Err(Error::Shape)
            }
        },
        _ => Err(Error::Shape),
    }
}

/// Reads a vertical alignment.
pub fn decode_vertical(v: &Node) -> (r: Result<Vertical, Error>)
    ensures
        outcome(r) == vertical_of(v@),
{
    match v {
        Node::Text(s) => {
            if same_text(s.as_str(), "top") {
                Ok(Vertical::Top)
            } else if same_text(s.as_str(), "center") {
                Ok(Vertical::Center)
            } else if same_text(s.as_str(), "bottom") {
                Ok(Vertical::Bottom)
            } else {
                Err(Error::Shape)
            }
        },
        _ => Err(Error::Shape),
    }
}

/// Reads an offset.
pub fn decode_vector(v: &Node) -> (r: Result<Vector, Error>)
    ensures
        outcome(r) == vector_of(v@),
{
    match v {
        Node::List(items) => {
            if items.len() == 2 {
                match (scalar(&items[0]), scalar(&items[1])) {
                    (Ok(x), Ok(y)) => Ok(Vector::new(x, y)),
                    _ => Err(Error::Shape),
                }
            } else {
                Err(Error::Shape)
            }
        },
        Node::Table(_) => match (v.get("x"), v.get("y")) {
            (Some(tx), Some(ty)) => match (scalar(tx), scalar(ty)) {
                (Ok(x), Ok(y)) => Ok(Vector::new(x, y)),
                _ => Err(Error::Shape),
            },
            _ => Err(Error::Shape),
        },
        _ => Err(Error::Shape),
    }
}

/// Reads the length under `key`, if the key is there.
pub fn opt_length(v: &Node, key: &str) -> (r: Result<Option<Length>, Error>)
    ensures
        outcome(r) == opt_length_of(v@.field(key@)),
{
    match v.get(key) {
        None => Ok(None),
        Some(t) => match decode_length(t) {
            Ok(x) => Ok(Some(x)),
            Err(e) => Err(e),
        },
    }
}

/// Reads the alignment under `key`, if the key is there.
pub fn opt_alignment(v: &Node, key: &str) -> (r: Result<Option<Alignment>, Error>)
    ensures
        outcome(r) == opt_alignment_of(v@.field(key@)),
{
    match v.get(key) {
        None => Ok(None),
        Some(t) => match decode_alignment(t) {
            Ok(x) => Ok(Some(x)),
            Err(e) => Err(e),
        },
    }
}

/// Reads the horizontal alignment under `key`, if the key is there.
pub fn opt_horizontal(v: &Node, key: &str) -> (r: Result<Option<Horizontal>, Error>)
    ensures
        outcome(r) == opt_horizontal_of(v@.field(key@)),
{
    match v.get(key) {
        None => Ok(None),
        Some(t) => match decode_horizontal(t) {
            Ok(x) => Ok(Some(x)),
            Err(e) => Err(e),
        },
    }
}

/// Reads the vertical alignment under `key`, if the key is there.
pub fn opt_vertical(v: &Node, key: &str) -> (r: Result<Option<Vertical>, Error>)
    ensures
        outcome(r) == opt_vertical_of(v@.field(key@)),
{
    match v.get(key) {
        None => Ok(None),
        Some(t) => match decode_vertical(t) {
            Ok(x) => Ok(Some(x)),
            Err(e) => Err(e),
        },
    }
}

/// Reads the offset under `key`, if the key is there.
pub fn opt_vector(v: &Node, key: &str) -> (r: Result<Option<Vector>, Error>)
    ensures
        outcome(r) == opt_vector_of(v@.field(key@)),
{
    match v.get(key) {
        None => Ok(None),
        Some(t) => match decode_vector(t) {
            Ok(x) => Ok(Some(x)),
            Err(e) => Err(e),
        },
    }
}

/// An offset that a node writes has not been moved.
pub proof fn lemma_vector_of_is_unmoved(t: Tree)
    requires
        vector_of(t) is Ok,
    ensures
        vector_of(t)->Ok_0.steps == 0,
        vector_of(t)->Ok_0.place() == (vector_of(t)->Ok_0.x.value(), vector_of(t)->Ok_0.y.value()),
{
}

} // verus!
