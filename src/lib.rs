//! Conversion of a SPIR-V module into a compact, index-addressed reflection
//! artifact: the type graph, the decorations of its types and the entry points.
pub mod spirv;
pub mod ospv;
pub mod var_decoration;
pub mod types;
pub mod builder;
pub mod decoration;
pub mod consumer;
pub mod laws;
pub mod config;
