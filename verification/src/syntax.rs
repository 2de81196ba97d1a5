//! The syntax tree that the rewriter reads and builds.
//!
//! Every node owns its children. What the rewriter never looks inside
//! (types, bounds, attributes, statements, paths) is carried as the source
//! text of its tokens. Each node type has a view, a value made of `Seq`,
//! `Option` and plain data, in which the rules are stated, and a `clone`
//! that is proved to keep the view.

pub mod blocks;
pub mod body;
pub mod data;
pub mod declaration;
pub mod function;
pub mod generics;
pub mod types;
