//! The linker: from the parsed registry to the indexed one.
//!
//! Linking runs in passes. The first gives every type its handle; the second replaces every
//! name by the handle of what it names. Between them the features are gathered, so that each
//! type and command knows the feature that introduces it.

pub mod decl;
pub mod declare;
pub mod gather;
pub mod link;
pub mod lookup;
pub mod lower;
pub mod numbers;
pub mod order;
pub mod resolve;
