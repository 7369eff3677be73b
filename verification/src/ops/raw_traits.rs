//! Capabilities of external collaborators: decomposition, unitary checks and
//! canonical equality values. They are consumed, not implemented, by this
//! core.

use vstd::prelude::*;

verus! {

use crate::ops::raw_types::QId;

/// Capability of gates that can be decomposed into simpler operations over a
/// concrete qubit list; the decomposition itself is an external collaborator.
pub trait Decompose {
    fn decompose<T, Q: QId>(&self, qubits: Vec<Q>) -> T;
}

/// Capability of gates that know whether they have a unitary-matrix
/// representation.
pub trait HasUnitary {
    fn has_unitary(&self) -> bool;
}

/// Capability of values that expose a canonical value for equality checks.
pub trait EqualityValue {
    fn equality_value<T>(&self) -> T;
}

} // verus!
