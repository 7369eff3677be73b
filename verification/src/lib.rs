//! Foundational object model of a quantum-circuit construction library.
//!
//! The crate defines what a qubit-like identifier is (`QId`), what a quantum
//! gate is (`Gate`), what an operation is (a gate applied to specific qubits,
//! `Operation` / `GateOperation`), and how operations may be annotated with
//! metadata tags (`TaggedOperation`). Every value type is immutable:
//! "modification" is functional replacement, and duplication produces
//! independent values.

pub mod ops;
pub mod utils;
