//! The default `Operation` implementation: a gate bound to an ordered qubit
//! list, validated against that shape at construction.

use vstd::prelude::*;

verus! {

use crate::ops::raw_types::{
    args_compatible, duplicate_qids, CirqError, Gate, Operation, QId, QIdShape, TaggedOperation,
};
use crate::utils::extra_traits::Hashable;

/// A gate applied to an ordered list of qubits.
pub struct GateOperation<G, Q> {
    gate: G,
    qubits: Vec<Q>,
}

impl<G: Gate, Q: QId> GateOperation<G, Q> {
    /// The exact gate this operation carries.
    pub closed spec fn gate_value_spec(&self) -> G {
        self.gate
    }

    /// Binds `gate` to `qubits`, failing with `ApplicationError` when the
    /// list does not match the shape of `gate`.
    pub fn new(gate: G, qubits: Vec<Q>) -> (r: Result<Self, CirqError>)
        ensures
            r is Ok <==> args_compatible(gate.shape_spec(), qubits@),
            r matches Ok(op) ==> op.gate_value_spec() == gate && op.qubits_spec() == qubits@,
            r is Err ==> r == Err::<Self, CirqError>(CirqError::ApplicationError),
    {
        match gate.validate_args(&qubits) {
            Ok(()) => Ok(GateOperation { gate, qubits }),
            Err(e) => Err(e),
        }
    }

    /// Replaces the operation's gate, keeping the same qubit list; the list
    /// is revalidated against the new gate's shape.
    pub fn with_gate(&self, new_gate: G) -> (r: Result<Self, CirqError>)
        ensures
            r is Ok <==> args_compatible(new_gate.shape_spec(), self.qubits_spec()),
            r matches Ok(op) ==> op.gate_value_spec() == new_gate && op.qubits_spec()
                == self.qubits_spec(),
            r is Err ==> r == Err::<Self, CirqError>(CirqError::ApplicationError),
    {
        match new_gate.validate_args(&self.qubits) {
            Ok(()) => Ok(GateOperation { gate: new_gate, qubits: duplicate_qids(&self.qubits) }),
            Err(e) => Err(e),
        }
    }
}

/// The models of a gate-qubit binding agree: the operation's own shape, the
/// shape it reports for its gate, and the shape of the exact gate it carries
/// are all the same.
pub proof fn lemma_gate_operation_shape<G: Gate, Q: QId>(op: &GateOperation<G, Q>)
    ensures
        op.gate_shape_spec() == Some(op.gate_value_spec().shape_spec()),
        op.shape_spec() == op.gate_value_spec().shape_spec(),
{
}

impl<G: Gate, Q: QId> QIdShape for GateOperation<G, Q> {
    closed spec fn shape_spec(&self) -> Seq<u64> {
        self.gate.shape_spec()
    }

    fn qid_shape(&self) -> (r: Vec<u64>) {
        self.gate.qid_shape()
    }
}

impl<G: Gate, Q: QId> Operation for GateOperation<G, Q> {
    type Q = Q;

    type G = G;

    closed spec fn gate_shape_spec(&self) -> Option<Seq<u64>> {
        Some(self.gate.shape_spec())
    }

    closed spec fn qubits_spec(&self) -> Seq<Q> {
        self.qubits@
    }

    fn duplicate(&self) -> (r: Self) {
        GateOperation { gate: self.gate.duplicate(), qubits: duplicate_qids(&self.qubits) }
    }

    fn gate(&self) -> (r: Option<&G>) {
        Some(&self.gate)
    }

    fn qubits(&self) -> (r: Vec<Q>) {
        duplicate_qids(&self.qubits)
    }

    fn with_qubits(&self, new_qubits: Vec<Q>) -> (r: Self) {
        GateOperation { gate: self.gate.duplicate(), qubits: new_qubits }
    }

    fn tags<T: Hashable>(&self) -> (r: Vec<T>) {
        Vec::new()
    }

    fn untagged(&self) -> (r: Self) {
        self.duplicate()
    }

    fn with_tags<T: Hashable>(&self, new_tags: Vec<T>) -> (r: TaggedOperation<Self, T>) {
        TaggedOperation::new(self.duplicate(), new_tags)
    }
}

} // verus!
