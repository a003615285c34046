//! A typed, ownership-safe layer for constructing a small in-memory
//! intermediate representation (IR) — types, functions, basic blocks,
//! instructions — and executing it.
//!
//! A caller creates a [`module::Module`], declares a function signature and
//! a function, appends basic blocks, and emits instructions through a
//! [`builder::Builder`] with an explicit insertion point.  A finished module
//! is then moved into an [`engine::ExecutionEngine`], which checks the
//! structural invariants of the graph (every block ends in exactly one
//! terminator, every operand resolves to a formal parameter or to an
//! earlier instruction of the same block), finalizes, and resolves
//! functions to invokable entries.
//!
//! The structural invariants are enforced at emission time and re-checked
//! when an engine is built, so a function that would "fall off the end" of
//! a block can never be resolved and invoked.

pub mod builder;
pub mod dump;
pub mod engine;
pub mod error;
pub mod ir;
pub mod module;
pub mod semantics;
pub mod types;
