//! Core capability traits of the object model: identifiers (`QId`), shapes
//! (`QIdShape`), gates (`Gate`) and operations (`Operation`), together with
//! the identifier adapter `QubitAsQId`, the tag wrapper `TaggedOperation` and
//! the lazy inverse wrapper `InverseCompositeGate`.

use vstd::prelude::*;

verus! {

use crate::utils::decimal::{append_dec, dec_digits};
use crate::utils::extra_traits::{duplicate_tags, Hashable};
use crate::utils::lexicographic::{compare_chars, lemma_lex_cmp_equal_iff, lex_cmp};
use vstd::std_specs::cmp::PartialEqSpec;
use vstd::std_specs::cmp::PartialOrdSpec;
use vstd::string::StringExecFns;

/// Errors reported by construction and validation.
#[derive(Clone, Copy, Debug, PartialEq, Eq, Structural)]
pub enum CirqError {
    /// A qid was constructed, or a dimension validated, with a value below one.
    InvalidDimension,
    /// A qubit list does not match the shape of its gate.
    ApplicationError,
}

/// Identifies a quantum object such as a qubit, qudit or resonator.
///
/// Equality and ordering between identifiers are defined exclusively by their
/// comparison-key strings, giving a deterministic total order across
/// heterogeneous qubit implementations.
pub trait QId: Sized {
    /// The canonical comparison key, as a mathematical character sequence.
    spec fn key_spec(&self) -> Seq<char>;

    /// The number of quantum levels of the identified object.
    spec fn dim_spec(&self) -> u64;

    /// Returns the canonical key used for equality and ordering.
    fn comparison_key(&self) -> (r: String)
        ensures
            r@ == self.key_spec(),
    ;

    /// Returns the dimension, e.g. 2 for a qubit, 3 for a qutrit.
    fn dimension(&self) -> (r: u64)
        ensures
            r == self.dim_spec(),
    ;

    /// Produces an independent value equal to this one.
    fn duplicate(&self) -> (r: Self)
        ensures
            r == *self,
    ;

    /// Checks that `dimension` is a legal qid dimension: it fails with
    /// `InvalidDimension` exactly when `dimension` is below one, regardless
    /// of the receiver.
    fn validate_dimension(&self, dimension: u64) -> (r: Result<(), CirqError>)
        ensures
            r is Ok <==> dimension >= 1,
            r is Err ==> r == Err::<(), CirqError>(CirqError::InvalidDimension),
    {
        if dimension < 1 {
            Err(CirqError::InvalidDimension)
        } else {
            Ok(())
        }
    }
}

/// Duplicates every qid of a list, preserving order and values.
pub fn duplicate_qids<Q: QId>(qubits: &Vec<Q>) -> (r: Vec<Q>)
    ensures
        r@ == qubits@,
{
    let mut out: Vec<Q> = Vec::new();
    let mut i: usize = 0;
    while i < qubits.len()
        invariant
            i <= qubits@.len(),
            out@ == qubits@.subrange(0, i as int),
        decreases qubits@.len() - i,
    {
        let q = &qubits[i];
        out.push(q.duplicate());
        proof {
            assert(out@ =~= qubits@.subrange(0, i + 1 as int));
        }
        i += 1;
    }
    proof {
        assert(qubits@.subrange(0, qubits@.len() as int) =~= qubits@);
    }
    out
}

/// The comparison key of an identifier adapter: the wrapped qubit's own key,
/// a separator, and the target dimension in decimal.
pub open spec fn adapter_key(key: Seq<char>, dimension: u64) -> Seq<char> {
    key + seq![':'] + dec_digits(dimension)
}

/// Wraps a qid-capable value together with an explicit, validated target
/// dimension. Its comparison key combines the wrapped qubit's own key with
/// that dimension, so the same qubit wrapped at two dimensions stays
/// distinguishable.
pub struct QubitAsQId<Q> {
    comparison_key: String,
    qubit: Q,
    dimension: u64,
}

impl<Q> QubitAsQId<Q> {
    #[verifier::type_invariant]
    spec fn wf(&self) -> bool {
        self.dimension >= 1
    }
}

impl<Q: QId> QubitAsQId<Q> {
    /// The wrapped qubit.
    pub closed spec fn qubit_spec(&self) -> Q {
        self.qubit
    }

    /// Returns the wrapped qubit.
    pub fn qubit(&self) -> (r: &Q)
        ensures
            *r == self.qubit_spec(),
    {
        &self.qubit
    }

    /// Wraps `qubit` at `dimension`, failing with `InvalidDimension` when
    /// `dimension` is below one.
    pub fn new(qubit: Q, dimension: u64) -> (r: Result<Self, CirqError>)
        ensures
            r is Ok <==> dimension >= 1,
            r matches Ok(q) ==> q.qubit_spec() == qubit && q.dim_spec() == dimension
                && q.key_spec() == adapter_key(qubit.key_spec(), dimension),
            r is Err ==> r == Err::<Self, CirqError>(CirqError::InvalidDimension),
    {
        match qubit.validate_dimension(dimension) {
            Err(e) => Err(e),
            Ok(()) => {
                let mut key = qubit.comparison_key();
                key.append(":");
                append_dec(dimension, &mut key);
                proof {
                    reveal_strlit(":");
                    assert(key@ =~= adapter_key(qubit.key_spec(), dimension));
                }
                Ok(QubitAsQId { comparison_key: key, qubit, dimension })
            },
        }
    }

    /// Returns an unchanged duplicate when `dimension` equals the current
    /// dimension; otherwise wraps the same qubit at the new (validated)
    /// dimension.
    pub fn with_dimension(&self, dimension: u64) -> (r: Result<Self, CirqError>)
        ensures
            r is Ok <==> dimension >= 1,
            dimension == self.dim_spec() ==> (r matches Ok(q) && q == *self),
            dimension != self.dim_spec() && dimension >= 1 ==> (r matches Ok(q)
                && q.qubit_spec() == self.qubit_spec() && q.dim_spec() == dimension
                && q.key_spec() == adapter_key(self.qubit_spec().key_spec(), dimension)),
            r is Err ==> r == Err::<Self, CirqError>(CirqError::InvalidDimension),
    {
        proof {
            use_type_invariant(&*self);
        }
        if dimension == self.dimension {
            Ok(self.duplicate())
        } else {
            Self::new(self.qubit.duplicate(), dimension)
        }
    }
}

impl<Q: QId> QId for QubitAsQId<Q> {
    closed spec fn key_spec(&self) -> Seq<char> {
        self.comparison_key@
    }

    closed spec fn dim_spec(&self) -> u64 {
        self.dimension
    }

    fn comparison_key(&self) -> (r: String) {
        self.comparison_key.clone()
    }

    fn dimension(&self) -> (r: u64) {
        self.dimension
    }

    fn duplicate(&self) -> (r: Self) {
        proof {
            use_type_invariant(&*self);
        }
        QubitAsQId {
            comparison_key: self.comparison_key.clone(),
            qubit: self.qubit.duplicate(),
            dimension: self.dimension,
        }
    }
}

impl<Q: QId> PartialEq for QubitAsQId<Q> {
    fn eq(&self, other: &Self) -> (r: bool) {
        self.comparison_key == other.comparison_key
    }
}

impl<Q: QId> vstd::std_specs::cmp::PartialEqSpecImpl for QubitAsQId<Q> {
    open spec fn obeys_eq_spec() -> bool {
        true
    }

    open spec fn eq_spec(&self, other: &Self) -> bool {
        self.key_spec() == other.key_spec()
    }
}

impl<Q: QId> PartialOrd for QubitAsQId<Q> {
    fn partial_cmp(&self, other: &Self) -> (r: Option<core::cmp::Ordering>) {
        Some(compare_chars(self.comparison_key.as_str(), other.comparison_key.as_str()))
    }
}

impl<Q: QId> vstd::std_specs::cmp::PartialOrdSpecImpl for QubitAsQId<Q> {
    open spec fn obeys_partial_cmp_spec() -> bool {
        true
    }

    open spec fn partial_cmp_spec(&self, other: &Self) -> Option<core::cmp::Ordering> {
        Some(lex_cmp(self.key_spec(), other.key_spec()))
    }
}

/// Two adapters compare equal exactly when their comparison keys are equal,
/// regardless of dimension or of the wrapped qubits.
pub proof fn lemma_adapter_eq_iff_key<Q: QId>(a: &QubitAsQId<Q>, b: &QubitAsQId<Q>)
    ensures
        a.eq_spec(b) <==> a.key_spec() == b.key_spec(),
{
}

/// Adapter ordering agrees with equality: the order says "equal" exactly
/// when the comparison keys are equal.
pub proof fn lemma_adapter_order_consistent<Q: QId>(a: &QubitAsQId<Q>, b: &QubitAsQId<Q>)
    ensures
        a.partial_cmp_spec(b) == Some(core::cmp::Ordering::Equal) <==> a.eq_spec(b),
{
    lemma_lex_cmp_equal_iff(a.key_spec(), b.key_spec());
}

/// Exposes an ordered per-slot dimension sequence; its length is the arity.
pub trait QIdShape: Sized {
    /// The ordered dimension sequence, one entry per operand slot.
    spec fn shape_spec(&self) -> Seq<u64>;

    /// Returns the ordered dimension sequence.
    fn qid_shape(&self) -> (r: Vec<u64>)
        ensures
            r@ == self.shape_spec(),
    ;
}

/// Whether a qubit list matches a gate shape: same length, and each qubit's
/// dimension equals the dimension of its slot.
pub open spec fn args_compatible<Q: QId>(shape: Seq<u64>, qubits: Seq<Q>) -> bool {
    qubits.len() == shape.len() && forall|i: int|
        0 <= i < shape.len() ==> qubits[i].dim_spec() == shape[i]
}

/// An effect that can be applied to a collection of qubits. A gate is
/// qubit-independent: it carries a shape and a rule for validating
/// applicability to a concrete qubit list.
pub trait Gate: QIdShape {
    /// Produces an independent gate with the same shape.
    fn duplicate(&self) -> (r: Self)
        ensures
            r.shape_spec() == self.shape_spec(),
    ;

    /// Checks whether this gate can be applied to `qubits`: it succeeds
    /// exactly when the list's length equals this gate's arity and each
    /// qubit's dimension equals the dimension of its slot.
    fn validate_args<Q: QId>(&self, qubits: &Vec<Q>) -> (r: Result<(), CirqError>)
        ensures
            r is Ok <==> args_compatible(self.shape_spec(), qubits@),
            r is Err ==> r == Err::<(), CirqError>(CirqError::ApplicationError),
    {
        let shape = self.qid_shape();
        default_validate_args(&shape, qubits)
    }
}

/// The default applicability check, callable by any concrete gate on its own
/// shape: the list's length must match the arity, and each qubit's dimension
/// the dimension of its slot.
pub fn default_validate_args<Q: QId>(shape: &Vec<u64>, qubits: &Vec<Q>) -> (r: Result<
    (),
    CirqError,
>)
    ensures
        r is Ok <==> args_compatible(shape@, qubits@),
        r is Err ==> r == Err::<(), CirqError>(CirqError::ApplicationError),
{
    if qubits.len() != shape.len() {
        return Err(CirqError::ApplicationError);
    }
    let mut i: usize = 0;
    while i < qubits.len()
        invariant
            qubits@.len() == shape@.len(),
            i <= qubits@.len(),
            forall|j: int| 0 <= j < i ==> qubits@[j].dim_spec() == shape@[j],
        decreases qubits@.len() - i,
    {
        let q = &qubits[i];
        if shape[i] != q.dimension() {
            proof {
                assert(!args_compatible(shape@, qubits@));
            }
            return Err(CirqError::ApplicationError);
        }
        i += 1;
    }
    Ok(())
}

/// An effect applied to a concrete, ordered qubit list. Operations are
/// immutable: every "mutator" returns a new value.
pub trait Operation: QIdShape + Sized {
    /// The qubit type the operation applies to.
    type Q: QId;

    /// The type of gate the operation may carry.
    type G: Gate;

    /// The shape of the underlying gate, or `None` for opaque operations
    /// that carry no gate.
    spec fn gate_shape_spec(&self) -> Option<Seq<u64>>;

    /// The ordered qubit list the operation applies to.
    spec fn qubits_spec(&self) -> Seq<Self::Q>;

    /// Produces an independent operation with the same gate shape and the
    /// same qubits.
    fn duplicate(&self) -> (r: Self)
        ensures
            r.gate_shape_spec() == self.gate_shape_spec(),
            r.qubits_spec() == self.qubits_spec(),
    ;

    /// Returns the underlying gate, if any.
    fn gate(&self) -> (r: Option<&Self::G>)
        ensures
            r matches Some(g) ==> self.gate_shape_spec() == Some(g.shape_spec()),
            r is None <==> self.gate_shape_spec() is None,
    ;

    /// Returns the ordered qubit list.
    fn qubits(&self) -> (r: Vec<Self::Q>)
        ensures
            r@ == self.qubits_spec(),
    ;

    /// Returns the same operation applied to `new_qubits`, positionally:
    /// the new list must have exactly as many qubits as the current one.
    fn with_qubits(&self, new_qubits: Vec<Self::Q>) -> (r: Self)
        requires
            new_qubits@.len() == self.qubits_spec().len(),
        ensures
            r.qubits_spec() == new_qubits@,
            r.gate_shape_spec() == self.gate_shape_spec(),
    ;

    /// The operation's own tag list: empty for raw, untagged operations.
    fn tags<T: Hashable>(&self) -> (r: Vec<T>)
        ensures
            r@ == Seq::<T>::empty(),
    ;

    /// Returns the operation with any tag wrapper stripped; an operation
    /// that reports no tags is its own untagged form.
    fn untagged(&self) -> (r: Self)
        ensures
            r.gate_shape_spec() == self.gate_shape_spec(),
            r.qubits_spec() == self.qubits_spec(),
    ;

    /// Wraps the operation in a `TaggedOperation` carrying exactly
    /// `new_tags`, discarding any tags the operation itself reports.
    fn with_tags<T: Hashable>(&self, new_tags: Vec<T>) -> (r: TaggedOperation<Self, T>)
        ensures
            r.sub_spec().gate_shape_spec() == self.gate_shape_spec(),
            r.sub_spec().qubits_spec() == self.qubits_spec(),
            r.tags_spec() == new_tags@,
    ;
}

/// An operation decorated with an ordered, non-deduplicated list of tags.
/// The decoration is reversible: `untagged` recovers the sub-operation.
pub struct TaggedOperation<Op, T> {
    /// The operation being decorated, exclusively owned.
    pub sub_operation: Op,
    tags: Vec<T>,
}

impl<Op, T> TaggedOperation<Op, T> {
    /// The decorated sub-operation, as a mathematical value.
    pub closed spec fn sub_spec(&self) -> Op {
        self.sub_operation
    }

    /// The ordered tag list, as a mathematical sequence.
    pub closed spec fn tags_spec(&self) -> Seq<T> {
        self.tags@
    }

    /// Decorates `sub_operation` with exactly `new_tags`.
    pub fn new(sub_operation: Op, new_tags: Vec<T>) -> (r: Self)
        ensures
            r.sub_spec() == sub_operation,
            r.tags_spec() == new_tags@,
    {
        TaggedOperation { sub_operation, tags: new_tags }
    }
}

impl<Op: Operation, T: Hashable> TaggedOperation<Op, T> {
    /// Delegates to the sub-operation's qubit list.
    pub fn qubits(&self) -> (r: Vec<Op::Q>)
        ensures
            r@ == self.sub_spec().qubits_spec(),
    {
        self.sub_operation.qubits()
    }

    /// Delegates to the sub-operation's gate.
    pub fn gate(&self) -> (r: Option<&Op::G>)
        ensures
            r matches Some(g) ==> self.sub_spec().gate_shape_spec() == Some(g.shape_spec()),
            r is None <==> self.sub_spec().gate_shape_spec() is None,
    {
        self.sub_operation.gate()
    }

    /// Rewraps the sub-operation applied to `new_qubits`, preserving the
    /// same tag list: qubit substitution never discards tags.
    pub fn with_qubits(&self, new_qubits: Vec<Op::Q>) -> (r: Self)
        requires
            new_qubits@.len() == self.sub_spec().qubits_spec().len(),
        ensures
            r.sub_spec().qubits_spec() == new_qubits@,
            r.sub_spec().gate_shape_spec() == self.sub_spec().gate_shape_spec(),
            r.tags_spec() == self.tags_spec(),
    {
        Self::new(self.sub_operation.with_qubits(new_qubits), duplicate_tags(&self.tags))
    }

    /// Returns exactly the tags given at construction.
    pub fn tags(&self) -> (r: Vec<T>)
        ensures
            r@ == self.tags_spec(),
    {
        duplicate_tags(&self.tags)
    }

    /// Strips the tag wrapper, recovering the sub-operation: same qubits,
    /// same gate.
    pub fn untagged(&self) -> (r: Op)
        ensures
            r.gate_shape_spec() == self.sub_spec().gate_shape_spec(),
            r.qubits_spec() == self.sub_spec().qubits_spec(),
    {
        self.sub_operation.duplicate()
    }

    /// Replaces the tag list: the result carries exactly `new_tags`, not a
    /// concatenation with the current tags.
    pub fn with_tags(&self, new_tags: Vec<T>) -> (r: Self)
        ensures
            r.sub_spec().gate_shape_spec() == self.sub_spec().gate_shape_spec(),
            r.sub_spec().qubits_spec() == self.sub_spec().qubits_spec(),
            r.tags_spec() == new_tags@,
    {
        Self::new(self.sub_operation.duplicate(), new_tags)
    }

    /// Produces an independent tagged operation with the same sub-operation
    /// model and the same tags.
    pub fn duplicate(&self) -> (r: Self)
        ensures
            r.sub_spec().gate_shape_spec() == self.sub_spec().gate_shape_spec(),
            r.sub_spec().qubits_spec() == self.sub_spec().qubits_spec(),
            r.tags_spec() == self.tags_spec(),
    {
        Self::new(self.sub_operation.duplicate(), duplicate_tags(&self.tags))
    }
}

/// The lazy inverse of a composite gate: its shape delegates to the original
/// gate; actual inversion is deferred to a decomposition collaborator.
pub struct InverseCompositeGate<G> {
    original: G,
}

impl<G: Gate> InverseCompositeGate<G> {
    /// The original gate whose inversion is deferred.
    pub closed spec fn original_spec(&self) -> G {
        self.original
    }

    /// Wraps `original` for deferred inversion.
    pub fn new(original: G) -> (r: Self)
        ensures
            r.original_spec() == original,
            r.shape_spec() == original.shape_spec(),
    {
        InverseCompositeGate { original }
    }
}

impl<G: Gate> QIdShape for InverseCompositeGate<G> {
    closed spec fn shape_spec(&self) -> Seq<u64> {
        self.original.shape_spec()
    }

    fn qid_shape(&self) -> (r: Vec<u64>) {
        self.original.qid_shape()
    }
}

} // verus!
