//! Name resolution and static type checking.

pub mod binder;
pub mod bound_ast;
pub mod typing;
