//! Structural purity rules for function definitions.
//!
//! A function is read as a syntax tree. The rule engine walks it once and
//! records which of the constructs that the rules forbid stand in it: loops,
//! mutable bindings and mutable reference types, `break` and `continue`.
//! Enforcement turns what was found into a verdict for the function, and
//! propagation puts the request for enforcement on every function of a module.
//!
//! The library works on trees that are already parsed. It reads no source text
//! and writes no diagnostics: it hands back what it found, with the message of
//! each rule, for the caller to report.

pub mod enforce;
pub mod engine;
pub mod laws;
pub mod pipeline;
pub mod propagate;
pub mod rules;
pub mod tree;

pub use crate::enforce::deny_all;
pub use crate::propagate::apply_deny_all;
