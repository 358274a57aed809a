//! A verified core for trait-method delegation by composition.
//!
//! Given an implementation block for a named contract (a trait), a list of
//! delegation clauses of the form `use <expr> [for <name>, ...]`, and a model
//! of the source scope in which the contract is declared, the library
//! synthesizes one forwarding method per delegated signature and assembles
//! the final implementation block as a token sequence.

pub mod token;
pub mod model;
pub mod parse;
pub mod locate;
pub mod extract;
pub mod synth;

pub use synth::delegate;
