//! Singleton code generation for struct declarations.
//!
//! Two generators turn the source text of a struct declaration into that same
//! text followed by an `impl` block giving the type a process-wide singleton:
//! `singleton` emits a lazily created, reader/writer-locked cell whose first
//! `initialize` wins, `singleton_unsafe` an unguarded mutable global whose last
//! `initialize` wins.
//!
//! The `slot` module is a separate, caller-owned model of those two cell
//! disciplines, with their laws proved of the model. Nothing checks the model
//! against the emitted text: what the generated code does when compiled and
//! run is outside what is proved here.

pub mod expand;
pub mod slot;

pub use expand::{
    expand_singleton, expand_singleton_unsafe, singleton, singleton_of_parsed, singleton_unsafe,
    singleton_unsafe_of_parsed, ExpandError,
};
pub use slot::{OnceSlot, OverwriteSlot};
