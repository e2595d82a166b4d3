//! The raw structured input: a tree of untyped tagged sequences.
//!
//! Every node of the external format is an ordered sequence whose first
//! element is a string naming the node kind; scalars are strings, numbers,
//! booleans and nulls.  Whatever read and parsed the external tool's output
//! hands the decoder one of these trees.

use vstd::prelude::*;

verus! {

/// An untyped input value.
pub enum Value {
    Null,
    Bool(bool),
    Num(u64),
    Text(String),
    List(Vec<Value>),
}

} // verus!
