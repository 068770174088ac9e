//! Codec for the JSON syntax-tree dumps produced by a C/C++ compiler.
//!
//! The wire format is irregular and delta-compressed: a node's `kind` string
//! selects a payload schema, child nodes hide in an `inner` array that may be
//! interleaved with payload fields, and source locations omit their `file` and
//! `line` whenever they repeat the previously emitted location.  This crate
//! reconstructs a regular tree from that format, and re-emits it, through an
//! explicit decode session that carries the string interner and the
//! last-location cursor.

use vstd::prelude::*;

pub mod error;
pub mod id;
pub mod intern;
pub mod kind;
pub mod loc;
pub mod node;
pub mod json;
pub mod session;

use crate::id::Id;

verus! {

/// One decoded syntax-tree node: an identity handle, a payload value of the
/// caller's choosing, and the ordered list of child nodes.
pub struct Node<T> {
    pub id: Id,
    pub kind: T,
    pub inner: Vec<Node<T>>,
}

} // verus!
