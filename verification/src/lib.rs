//! A verified model of scene-tree node lookup as a host game engine performs
//! it: a class hierarchy with checked downcasts, nodes addressed by
//! slash-separated paths, and convenience helpers that collapse every failure
//! (missing node, wrong type, absent root) to a single absence signal.

pub mod classes;
pub mod path;
pub mod tree;
pub mod lookup;
pub mod laws;
