//! From TOML text to a document tree.
//!
//! The TOML grammar is the `toml` crate's. This module calls its parser and copies what it
//! returns, node by node, into a [`Node`].

use crate::error::Error;
use crate::node::{lemma_entry_below, lemma_item_below, Node, Tree};
use vstd::prelude::*;

verus! {

/// The tree that a `toml::Value` holds.
pub uninterp spec fn toml_tree(v: toml::Value) -> Tree;

/// The document that `toml::from_slice` reads from these bytes, if it accepts them.
pub uninterp spec fn toml_document(bytes: Seq<u8>) -> Option<Tree>;

/// One node of a `toml::Value`, with its children still as the parser made them.
enum Layer<'a> {
    Text(&'a str),
    Integer(i64),
    Real(u64),
    Boolean(bool),
    Moment(String),
    List(&'a Vec<toml::Value>),
    Table(Vec<(&'a String, &'a toml::Value)>),
}

impl<'a> Layer<'a> {
    /// Whether this node shows the top of `tree`, and its children the trees below it.
    spec fn shows(self, tree: Tree) -> bool {
        match self {
            Layer::Text(s) => tree == Tree::Text(s@),
            Layer::Integer(n) => tree == Tree::Integer(n),
            Layer::Real(bits) => tree == Tree::Real(bits),
            Layer::Boolean(b) => tree == Tree::Boolean(b),
            Layer::Moment(s) => tree == Tree::Moment(s@),
            Layer::List(items) => {
                &&& tree matches Tree::List(below)
                &&& below.len() == items@.len()
                &&& forall|i: int|
                    0 <= i < items@.len() ==> (#[trigger] below[i]) == toml_tree(items@[i])
            },
            Layer::Table(entries) => {
                &&& tree matches Tree::Table(below)
                &&& below.len() == entries@.len()
                &&& forall|i: int|
                    0 <= i < entries@.len() ==> (#[trigger] below[i]) == (
                        entries@[i].0@,
                        toml_tree(*entries@[i].1),
                    )
            },
        }
    }
}

/// Parses a TOML document.
///
/// Trusted: `toml::from_slice` at the type `toml::Value`. It reads the bytes as UTF-8 and as
/// TOML and returns the document, or an error where they are not both; of the error its
/// `Display` form is kept. Whether and what it returns depends on the bytes alone, which is all
/// that the contract says.
#[verifier::external_body]
fn parse(bytes: &[u8]) -> (r: Result<toml::Value, String>)
    ensures
        match r {
            Ok(v) => toml_document(bytes@) == Some(toml_tree(v)),
            Err(_) => toml_document(bytes@) is None,
        },
{
    match toml::from_slice(bytes) {
        Ok(v) => Ok(v),
        Err(e) => Err(e.to_string()),
    }
}

/// Opens one node of a parsed document.
///
/// Trusted: the seven variants of `toml::Value`. A string, integer or boolean is handed on; a
/// real number by `f64::to_bits`; a date by its `Display` form; an array by a borrow of its
/// items; a table by its entries in the order of `toml::value::Map::iter`.
#[verifier::external_body]
fn open<'a>(v: &'a toml::Value) -> (r: Layer<'a>)
    ensures
        r.shows(toml_tree(*v)),
{
    match v {
        toml::Value::String(s) => Layer::Text(s),
        toml::Value::Integer(n) => Layer::Integer(*n),
        toml::Value::Float(x) => Layer::Real(x.to_bits()),
        toml::Value::Boolean(b) => Layer::Boolean(*b),
        toml::Value::Datetime(d) => Layer::Moment(d.to_string()),
        toml::Value::Array(items) => Layer::List(items),
        toml::Value::Table(entries) => Layer::Table(entries.iter().collect()),
    }
}

/// Copies a parsed document into a [`Node`].
fn lift(v: &toml::Value) -> (r: Node)
    ensures
        r@ == toml_tree(*v),
    decreases toml_tree(*v),
{
    match open(v) {
        Layer::Text(s) => Node::Text(s.to_owned()),
        Layer::Integer(n) => Node::Integer(n),
        Layer::Real(bits) => Node::Real(bits),
        Layer::Boolean(b) => Node::Boolean(b),
        Layer::Moment(s) => Node::Moment(s),
        Layer::List(items) => {
            let ghost below = toml_tree(*v)->List_0;
            let mut out: Vec<Node> = Vec::new();
            let mut i: usize = 0;
            while i < items.len()
                invariant
                    i <= items.len(),
                    out@.len() == i,
                    toml_tree(*v) == Tree::List(below),
                    below.len() == items@.len(),
                    forall|j: int|
                        0 <= j < items@.len() ==> (#[trigger] below[j]) == toml_tree(items@[j]),
                    forall|j: int| 0 <= j < i ==> (#[trigger] out@[j])@ == below[j],
                decreases items.len() - i,
            {
                proof {
                    lemma_item_below(toml_tree(*v), i as int);
                }
                assert(below[i as int] == toml_tree(items@[i as int]));
                let item = lift(&items[i]);
                out.push(item);
                i += 1;
            }
            let r = Node::List(out);
            assert(r@->List_0 =~= below);
            r
        },
        Layer::Table(entries) => {
            let ghost below = toml_tree(*v)->Table_0;
            let mut out: Vec<(String, Node)> = Vec::new();
            let mut i: usize = 0;
            while i < entries.len()
                invariant
                    i <= entries.len(),
                    out@.len() == i,
                    toml_tree(*v) == Tree::Table(below),
                    below.len() == entries@.len(),
                    forall|j: int|
                        0 <= j < entries@.len() ==> (#[trigger] below[j]) == (
                            entries@[j].0@,
                            toml_tree(*entries@[j].1),
                        ),
                    forall|j: int|
                        0 <= j < i ==> ((#[trigger] out@[j]).0@, out@[j].1@) == below[j],
                decreases entries.len() - i,
            {
                proof {
                    lemma_entry_below(toml_tree(*v), i as int);
                }
                assert(below[i as int] == (
                    entries@[i as int].0@,
                    toml_tree(*entries@[i as int].1),
                ));
                let key = entries[i].0.clone();
                let value = lift(entries[i].1);
                out.push((key, value));
                i += 1;
            }
            let r = Node::Table(out);
            assert(r@->Table_0 =~= below);
            r
        },
    }
}

/// What reading `bytes` as a document gives: the tree, or the fact that they are no TOML.
pub open spec fn read(bytes: Seq<u8>) -> Option<Tree> {
    toml_document(bytes)
}

/// Reads a TOML document.
///
/// The result is the document that the parser makes of the bytes, and an [`Error::Syntax`]
/// exactly where the parser refuses them.
pub fn document(bytes: &[u8]) -> (r: Result<Node, Error>)
    ensures
        match r {
            Ok(v) => read(bytes@) == Some(v@),
            Err(e) => read(bytes@) is None && e@ is Syntax,
        },
{
    match parse(bytes) {
        Ok(v) => Ok(lift(&v)),
        Err(message) => Err(Error::Syntax(message)),
    }
}

} // verus!
