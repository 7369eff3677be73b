use cirq_core::ops::concrete::{IdentityGate, LineQid, ValueTag};
use cirq_core::ops::gate_operation::GateOperation;
use cirq_core::ops::raw_types::{
    default_validate_args, CirqError, Gate, InverseCompositeGate, Operation, QId, QIdShape,
    QubitAsQId, TaggedOperation,
};
use cirq_core::utils::decimal::append_dec;
use cirq_core::utils::extra_traits::Hashable;

fn qubit(id: u64) -> LineQid {
    LineQid::new(id, 2).unwrap()
}

fn qudit(id: u64, dimension: u64) -> LineQid {
    LineQid::new(id, dimension).unwrap()
}

fn gate(shape: Vec<u64>) -> IdentityGate {
    IdentityGate::new(shape).unwrap()
}

fn tag(value: u64) -> ValueTag {
    ValueTag { value }
}

#[test]
fn validate_dimension_rejects_below_one() {
    let q = qubit(0);
    assert_eq!(q.validate_dimension(0), Err(CirqError::InvalidDimension));
    assert_eq!(q.validate_dimension(1), Ok(()));
    assert_eq!(q.validate_dimension(2), Ok(()));
    assert_eq!(q.validate_dimension(u64::MAX), Ok(()));
}

#[test]
fn line_qid_reports_id_dimension_and_key() {
    let q = LineQid::new(5, 3).unwrap();
    assert_eq!(q.id(), 5);
    assert_eq!(q.dimension(), 3);
    assert_eq!(q.comparison_key(), "line-5");
    assert!(matches!(LineQid::new(5, 0), Err(CirqError::InvalidDimension)));
}

#[test]
fn validate_args_checks_length_and_dimensions() {
    let g = gate(vec![2, 3]);
    let ok = vec![qubit(0), qudit(1, 3)];
    assert_eq!(g.validate_args(&ok), Ok(()));
    let swapped = vec![qudit(0, 3), qubit(1)];
    assert_eq!(g.validate_args(&swapped), Err(CirqError::ApplicationError));
    let short = vec![qubit(0)];
    assert_eq!(g.validate_args(&short), Err(CirqError::ApplicationError));
    let empty: Vec<LineQid> = vec![];
    assert_eq!(g.validate_args(&empty), Err(CirqError::ApplicationError));
}

#[test]
fn default_validate_args_matches_trait_check() {
    let shape = vec![2u64];
    let ok = vec![qubit(4)];
    assert_eq!(default_validate_args(&shape, &ok), Ok(()));
    let bad = vec![qudit(4, 5)];
    assert_eq!(default_validate_args(&shape, &bad), Err(CirqError::ApplicationError));
}

#[test]
fn single_qubit_gate_scenario() {
    let g = gate(vec![2]);
    assert_eq!(g.validate_args(&vec![qubit(0)]), Ok(()));
    assert_eq!(g.validate_args(&vec![qudit(0, 3)]), Err(CirqError::ApplicationError));
    assert_eq!(
        g.validate_args(&vec![qubit(0), qubit(1)]),
        Err(CirqError::ApplicationError)
    );
}

#[test]
fn identity_gate_rejects_zero_dimension_slot() {
    assert!(matches!(IdentityGate::new(vec![2, 0]), Err(CirqError::InvalidDimension)));
    let g = gate(vec![2, 3, 2]);
    assert_eq!(g.qid_shape(), vec![2, 3, 2]);
    let empty = gate(vec![]);
    assert_eq!(empty.qid_shape(), vec![]);
    assert_eq!(empty.validate_args(&Vec::<LineQid>::new()), Ok(()));
}

#[test]
fn adapter_rejects_dimension_zero() {
    let r = QubitAsQId::new(qubit(1), 0);
    assert!(matches!(r, Err(CirqError::InvalidDimension)));
    let a = QubitAsQId::new(qubit(1), 2).unwrap();
    assert_eq!(a.dimension(), 2);
}

#[test]
fn adapter_key_combines_qubit_key_and_dimension() {
    let a = QubitAsQId::new(qubit(7), 3).unwrap();
    assert_eq!(a.comparison_key(), "line-7:3");
    assert_eq!(a.qubit().id(), 7);
    assert_eq!(a.qubit().dimension(), 2);
    let b = QubitAsQId::new(qubit(7), 10).unwrap();
    assert_eq!(b.comparison_key(), "line-7:10");
}

#[test]
fn qid_equality_goes_by_key_alone() {
    let a = qudit(1, 2);
    let b = qudit(1, 5);
    assert!(a == b);
    let c = qudit(2, 2);
    assert!(a != c);
    assert_eq!(a.comparison_key() == b.comparison_key(), a == b);
    assert_eq!(a.comparison_key() == c.comparison_key(), a == c);
}

#[test]
fn adapter_equality_goes_by_key_alone() {
    let a = QubitAsQId::new(qudit(1, 2), 3).unwrap();
    let b = QubitAsQId::new(qudit(1, 7), 3).unwrap();
    assert!(a == b);
    let c = QubitAsQId::new(qudit(1, 2), 4).unwrap();
    assert!(a != c);
    let d = QubitAsQId::new(qudit(2, 2), 3).unwrap();
    assert!(a != d);
    assert_eq!(a.comparison_key() == c.comparison_key(), a == c);
}

#[test]
fn qid_ordering_is_lexicographic_on_keys() {
    let a = qubit(1);
    let b = qubit(10);
    let c = qubit(2);
    assert!(a < b);
    assert!(b < c);
    assert!(a < c);
    assert_eq!(a.partial_cmp(&qudit(1, 3)), Some(std::cmp::Ordering::Equal));
    let w1 = QubitAsQId::new(qubit(1), 2).unwrap();
    let w2 = QubitAsQId::new(qubit(1), 10).unwrap();
    assert_eq!(w1.comparison_key(), "line-1:2");
    assert_eq!(w2.comparison_key(), "line-1:10");
    assert!(w2 < w1);
    assert_eq!(
        w1.partial_cmp(&QubitAsQId::new(qudit(1, 7), 2).unwrap()),
        Some(std::cmp::Ordering::Equal)
    );
}

#[test]
fn with_dimension_same_value_is_identity() {
    let a = QubitAsQId::new(qubit(1), 2).unwrap();
    let same = a.with_dimension(2).unwrap();
    assert!(same == a);
    assert_eq!(same.dimension(), 2);
    assert_eq!(same.comparison_key(), a.comparison_key());
}

#[test]
fn with_dimension_new_value_rewraps_same_qubit() {
    let a = QubitAsQId::new(qubit(9), 2).unwrap();
    let b = a.with_dimension(5).unwrap();
    assert_eq!(b.dimension(), 5);
    assert_eq!(b.comparison_key(), "line-9:5");
    assert!(matches!(a.with_dimension(0), Err(CirqError::InvalidDimension)));
}

#[test]
fn gate_operation_validates_at_construction() {
    let g = gate(vec![2]);
    let op = GateOperation::new(g, vec![qubit(0)]).unwrap();
    assert_eq!(op.qubits(), vec![qubit(0)]);
    assert_eq!(op.gate(), Some(&gate(vec![2])));
    let bad = GateOperation::new(gate(vec![2]), vec![qudit(0, 3)]);
    assert!(matches!(bad, Err(CirqError::ApplicationError)));
    let wrong_arity = GateOperation::new(gate(vec![2]), vec![qubit(0), qubit(1)]);
    assert!(matches!(wrong_arity, Err(CirqError::ApplicationError)));
}

#[test]
fn with_gate_keeps_qubits_and_revalidates() {
    let op = GateOperation::new(gate(vec![2]), vec![qubit(3)]).unwrap();
    let g2 = gate(vec![2]);
    let op2 = op.with_gate(g2).unwrap();
    assert_eq!(op2.qubits(), vec![qubit(3)]);
    assert_eq!(op2.gate(), Some(&gate(vec![2])));
    let g3 = gate(vec![7]);
    assert!(matches!(op.with_gate(g3), Err(CirqError::ApplicationError)));
}

#[test]
fn with_qubits_replaces_positionally() {
    let op = GateOperation::new(gate(vec![2, 2]), vec![qubit(0), qubit(1)]).unwrap();
    let op2 = op.with_qubits(vec![qubit(5), qubit(4)]);
    assert_eq!(op2.qubits(), vec![qubit(5), qubit(4)]);
    assert_eq!(op2.gate(), op.gate());
    assert_eq!(op2.gate(), Some(&gate(vec![2, 2])));
}

#[test]
fn gate_operation_shape_delegates_to_gate() {
    let op = GateOperation::new(
        gate(vec![2, 3, 2]),
        vec![qubit(0), qudit(1, 3), qubit(2)],
    )
    .unwrap();
    assert_eq!(op.qid_shape(), vec![2, 3, 2]);
}

#[test]
fn raw_operation_reports_no_tags() {
    let op = GateOperation::new(gate(vec![2]), vec![qubit(0)]).unwrap();
    let tags: Vec<ValueTag> = op.tags();
    assert!(tags.is_empty());
}

#[test]
fn untagged_raw_operation_is_itself() {
    let op = GateOperation::new(gate(vec![2]), vec![qubit(0)]).unwrap();
    let u = op.untagged();
    assert_eq!(u.qubits(), op.qubits());
    assert_eq!(u.gate(), op.gate());
}

#[test]
fn with_tags_then_untagged_recovers_operation() {
    let op = GateOperation::new(gate(vec![2]), vec![qubit(2)]).unwrap();
    let tagged = op.with_tags(vec![tag(11)]);
    let back = tagged.untagged();
    assert_eq!(back.qubits(), op.qubits());
    assert_eq!(back.gate(), op.gate());
    assert_eq!(back.gate(), Some(&gate(vec![2])));
}

#[test]
fn with_tags_replaces_not_concatenates() {
    let op = GateOperation::new(gate(vec![2]), vec![qubit(0)]).unwrap();
    let t1 = vec![tag(1), tag(2)];
    let t2 = vec![tag(3)];
    let twice = op.with_tags(t1).with_tags(t2.clone());
    assert_eq!(twice.tags(), t2);
}

#[test]
fn tagged_operation_reports_exact_tags() {
    let op = GateOperation::new(gate(vec![2]), vec![qubit(0)]).unwrap();
    let tags = vec![tag(4), tag(4), tag(9)];
    let tagged = TaggedOperation::new(op, tags.clone());
    assert_eq!(tagged.tags(), tags);
}

#[test]
fn tagged_operation_delegates_and_keeps_tags_on_requbit() {
    let op = GateOperation::new(gate(vec![2, 2]), vec![qubit(0), qubit(1)]).unwrap();
    let tags = vec![tag(5)];
    let tagged = TaggedOperation::new(op, tags.clone());
    assert_eq!(tagged.qubits(), vec![qubit(0), qubit(1)]);
    assert_eq!(tagged.gate(), Some(&gate(vec![2, 2])));
    let moved = tagged.with_qubits(vec![qubit(8), qubit(9)]);
    assert_eq!(moved.qubits(), vec![qubit(8), qubit(9)]);
    assert_eq!(moved.gate(), Some(&gate(vec![2, 2])));
    assert_eq!(moved.tags(), tags);
}

#[test]
fn inverse_composite_gate_shape_delegates() {
    let inv = InverseCompositeGate::new(gate(vec![3, 2]));
    assert_eq!(inv.qid_shape(), vec![3, 2]);
}

#[test]
fn tag_capability_exposes_hash_and_equality() {
    let a = tag(3);
    let b = tag(3);
    let c = tag(4);
    assert_eq!(a.hash(), 3);
    assert!(a.tag_eq(&b));
    assert!(!a.tag_eq(&c));
    assert_eq!(a.duplicate(), a);
}

#[test]
fn decimal_rendering_is_exact() {
    let mut s = String::new();
    append_dec(0, &mut s);
    assert_eq!(s, "0");
    let mut s2 = String::new();
    append_dec(12345, &mut s2);
    assert_eq!(s2, "12345");
    let mut s3 = String::from("x");
    append_dec(10, &mut s3);
    assert_eq!(s3, "x10");
    let mut s4 = String::new();
    append_dec(u64::MAX, &mut s4);
    assert_eq!(s4, "18446744073709551615");
}
