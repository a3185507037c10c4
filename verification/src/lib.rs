//! A source-to-source tree transform that strips specific, named top-level
//! bindings (data-fetching hooks such as a server-side-props function) out of
//! a module's syntax tree, so that code reachable only at build or server time
//! is excluded from a client-targeted bundle.
//!
//! The tree is modeled as a closed sum type per grammar level, generic over an
//! opaque payload type that carries every subtree the transform never reads
//! (initializers, destructuring patterns, unrelated statements). The host that
//! parses and re-serializes source text converts its own syntax tree into this
//! model, runs [`transform::TransformVisitor::transform_module`], and converts
//! the result back.

pub mod laws;
pub mod model;
pub mod transform;
