//! Semantic analysis and code generation for a small expression language.
//!
//! A parsed program is bound (names resolved, types checked) into a typed
//! tree, which is then lowered to instructions and rendered as module text.

pub mod ast;
pub mod bind;
pub mod code_gen;
pub mod diagnostics;
pub mod text;
pub mod tree;

pub use crate::tree::print_program;
