//! Lowering of the typed tree to instructions, and their rendering as text.

pub mod llvm_context;
pub mod llvm_ir_builder;
pub mod llvm_module;
pub mod invariants;
