//! Readers for the plain values of a style sheet: numbers and sizes.
//!
//! Each reader has a specification over the document's model, and each field of a record that
//! may be left out has a reader from "perhaps a node" to "perhaps a value".

use crate::error::{outcome, Error, Fault};
use crate::node::{Node, Tree};
use crate::number::Scalar;
use vstd::prelude::*;

verus! {

/// The number that a node writes: an integer or a real.
pub open spec fn scalar_of(t: Tree) -> Result<Scalar, Fault> {
    match t {
        Tree::Integer(n) => Ok(Scalar::Integer(n)),
        Tree::Real(bits) => Ok(Scalar::Real(bits)),
        _ => Err(Fault::Shape),
    }
}

/// The size of sixteen bits that a node writes: an integer from 0 to 65535.
pub open spec fn u16_of(t: Tree) -> Result<u16, Fault> {
    match t {
        Tree::Integer(n) if 0 <= n <= u16::MAX => Ok(n as u16),
        _ => Err(Fault::Shape),
    }
}

/// The size of thirty-two bits that a node writes: an integer from 0 to 4294967295.
pub open spec fn u32_of(t: Tree) -> Result<u32, Fault> {
    match t {
        Tree::Integer(n) if 0 <= n <= u32::MAX => Ok(n as u32),
        _ => Err(Fault::Shape),
    }
}

/// The number of a field that may be left out.
pub open spec fn opt_scalar_of(node: Option<Tree>) -> Result<Option<Scalar>, Fault> {
    match node {
        None => Ok(None),
        Some(t) => match scalar_of(t) {
            Ok(x) => Ok(Some(x)),
            Err(e) => Err(e),
        },
    }
}

/// The size of a field that may be left out.
pub open spec fn opt_u16_of(node: Option<Tree>) -> Result<Option<u16>, Fault> {
    match node {
        None => Ok(None),
        Some(t) => match u16_of(t) {
            Ok(x) => Ok(Some(x)),
            Err(e) => Err(e),
        },
    }
}

/// The size of a field that may be left out.
pub open spec fn opt_u32_of(node: Option<Tree>) -> Result<Option<u32>, Fault> {
    match node {
        None => Ok(None),
        Some(t) => match u32_of(t) {
            Ok(x) => Ok(Some(x)),
            Err(e) => Err(e),
        },
    }
}

/// Reads a number.
pub fn scalar(v: &Node) -> (r: Result<Scalar, Error>)
    ensures
        outcome(r) == scalar_of(v@),
{
    match v {
        Node::Integer(n) => Ok(Scalar::Integer(*n)),
        Node::Real(bits) => Ok(Scalar::Real(*bits)),
        _ => Err(Error::Shape),
    }
}

/// Reads a size of sixteen bits.
pub fn size16(v: &Node) -> (r: Result<u16, Error>)
    ensures
        outcome(r) == u16_of(v@),
{
    match v {
        Node::Integer(n) => {
            if 0 <= *n && *n <= 65535 {
                Ok(*n as u16)
            } else {
                Err(Error::Shape)
            }
        },
        _ => Err(Error::Shape),
    }
}

/// Reads a size of thirty-two bits.
pub fn size32(v: &Node) -> (r: Result<u32, Error>)
    ensures
        outcome(r) == u32_of(v@),
{
    match v {
        Node::Integer(n) => {
            if 0 <= *n && *n <= 4294967295 {
                Ok(*n as u32)
            } else {
                Err(Error::Shape)
            }
        },
        _ => Err(Error::Shape),
    }
}

/// Reads the number under `key`, if the key is there.
pub fn opt_scalar(v: &Node, key: &str) -> (r: Result<Option<Scalar>, Error>)
    ensures
        outcome(r) == opt_scalar_of(v@.field(key@)),
{
    match v.get(key) {
        None => Ok(None),
        Some(t) => match scalar(t) {
            Ok(x) => Ok(Some(x)),
            Err(e) => Err(e),
        },
    }
}

/// Reads the size under `key`, if the key is there.
pub fn opt_size16(v: &Node, key: &str) -> (r: Result<Option<u16>, Error>)
    ensures
        outcome(r) == opt_u16_of(v@.field(key@)),
{
    match v.get(key) {
        None => Ok(None),
        Some(t) => match size16(t) {
            Ok(x) => Ok(Some(x)),
            Err(e) => Err(e),
        },
    }
}

/// Reads the size under `key`, if the key is there.
pub fn opt_size32(v: &Node, key: &str) -> (r: Result<Option<u32>, Error>)
    ensures
        outcome(r) == opt_u32_of(v@.field(key@)),
{
    match v.get(key) {
        None => Ok(None),
        Some(t) => match size32(t) {
            Ok(x) => Ok(Some(x)),
            Err(e) => Err(e),
        },
    }
}

} // verus!
