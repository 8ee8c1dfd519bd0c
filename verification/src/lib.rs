//! A navigation engine for browsing an immutable, tree-shaped document.
//!
//! The document is held in an arena ([`doc::Doc`]): every node is identified
//! by an index, and container nodes refer to their children by index. A
//! cursor ([`zipper::JsonPath`]) moves through the tree without copying
//! subtrees, keeping a stack of frames from which the path back to the root
//! can always be replayed. [`commands::Viewer`] applies keyboard commands to
//! that cursor one at a time; invalid requests are absorbed as no-ops, so no
//! command sequence can fail. [`laws`] states and proves the laws the engine
//! obeys.

pub mod commands;
pub mod doc;
pub mod laws;
pub mod segment;
pub mod zipper;
