//! The closed data format carried through a relayed call.

use vstd::prelude::*;

verus! {

/// A self-contained datum exchanged with the downstream target: the
/// argument list handed to it and the value it returns. A tagged union
/// over primitives, lists and key/value pair lists, so that a relayed
/// payload is an ordinary value rather than a dynamically typed handle.
#[derive(PartialEq, Eq, Debug)]
pub enum Value {
    /// No payload.
    Void,
    /// A boolean.
    Bool(bool),
    /// A signed integer.
    Int(i128),
    /// An uninterpreted byte string (identifiers, symbols, blobs).
    Bytes(Vec<u8>),
    /// An ordered list of values.
    List(Vec<Value>),
    /// An association list of key/value pairs.
    Pairs(Vec<(Value, Value)>),
}

/// The opaque failure reported by a downstream invocation. The relay
/// treats every non-success outcome uniformly and discards the detail.
#[derive(Clone, Copy, PartialEq, Eq, Structural, Debug)]
pub struct InvokeError;

} // verus!
