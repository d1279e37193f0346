//! Generation of per-shape extractor methods for tagged-union types.
//!
//! Given the description of a tagged union (its name and its ordered shapes,
//! each with its fields and a flag that marks it fatal), the library derives
//! one `expect_<shape>` method per shape, renders it as Rust source text, and
//! gives an executable model of what the generated method does when called.
pub mod description;
pub mod extract;
pub mod generate;
pub mod laws;
pub mod render;
pub mod text;
