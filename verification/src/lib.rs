//! A bridge from parsed game-asset value trees to a dynamic object model.
//!
//! The heart of the crate is [`pyserde::to_value`], which walks a tree of
//! [`content::Content`] nodes and rebuilds it, node by node, as a
//! [`pyvalue::PyValue`] object graph: the shape a Python embedding layer
//! turns directly into host objects. The [`laws`] module states — and
//! proves, for all inputs — the properties the conversion obeys.

pub mod content;
pub mod laws;
pub mod pyserde;
pub mod pyvalue;
