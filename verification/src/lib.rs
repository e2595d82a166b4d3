//! A validating decoder and call normalizer for a scripting language's
//! dumped parse trees.
//!
//! The input is a tree of tagged sequences: every node is an ordered
//! sequence whose first element names its kind.  `value` models that raw
//! input, `tag` names the node kinds and the decode errors, `ast` is the
//! typed node catalog, `decode` turns raw values into typed nodes while
//! rejecting anything malformed, and `norm` collapses the five call-shaped
//! node kinds into the one canonical method-call form.

pub mod ast;
pub mod decode;
pub mod norm;
pub mod tag;
pub mod value;
