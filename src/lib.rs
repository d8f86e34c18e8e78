//! Turns a parsed Slint syntax tree into TypeScript interface declarations.
//!
//! The tree is held in the library's own `SyntaxNode` model; the declared
//! structs and components are extracted, their Slint types are mapped to
//! TypeScript types, and each declaration is rendered as one interface.
pub mod emit;
pub mod extract;
pub mod laws;
pub mod render;
pub mod tree;
pub mod types;
