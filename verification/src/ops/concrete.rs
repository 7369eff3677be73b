//! Ready-to-use implementations of the capability traits: a line qubit, an
//! identity gate carrying an explicit shape, and a plain integer tag. They
//! serve both as working building blocks and as models for third-party
//! implementations of the traits.

use vstd::prelude::*;

verus! {

use crate::ops::raw_types::{CirqError, Gate, QId, QIdShape};
use crate::utils::decimal::{append_dec, dec_digits};
use crate::utils::extra_traits::Hashable;
use crate::utils::lexicographic::{compare_chars, lex_cmp};
use vstd::std_specs::cmp::PartialEqSpec;
use vstd::string::StringExecFns;

/// The comparison key of a line qubit: its line index in decimal after a
/// fixed prefix. The key identifies the position on the line alone, not the
/// dimension.
pub open spec fn line_key(id: u64) -> Seq<char> {
    "line-"@ + dec_digits(id)
}

/// A qubit identified by its position on a line, with an explicit dimension.
#[derive(Debug)]
pub struct LineQid {
    comparison_key: String,
    id: u64,
    dimension: u64,
}

impl LineQid {
    #[verifier::type_invariant]
    spec fn wf(&self) -> bool {
        self.dimension >= 1
    }
}

impl LineQid {
    /// The line index identifying the qubit.
    pub closed spec fn id_spec(&self) -> u64 {
        self.id
    }

    /// Identifies the qubit at position `id` with `dimension` levels,
    /// failing with `InvalidDimension` when `dimension` is below one.
    pub fn new(id: u64, dimension: u64) -> (r: Result<Self, CirqError>)
        ensures
            r is Ok <==> dimension >= 1,
            r matches Ok(q) ==> q.id_spec() == id && q.dim_spec() == dimension && q.key_spec()
                == line_key(id),
            r is Err ==> r == Err::<Self, CirqError>(CirqError::InvalidDimension),
    {
        if dimension < 1 {
            Err(CirqError::InvalidDimension)
        } else {
            let mut key = String::from_str("line-");
            append_dec(id, &mut key);
            proof {
                assert(key@ =~= line_key(id));
            }
            Ok(LineQid { comparison_key: key, id, dimension })
        }
    }

    /// Returns the qubit's line index.
    pub fn id(&self) -> (r: u64)
        ensures
            r == self.id_spec(),
    {
        self.id
    }
}

impl QId for LineQid {
    closed spec fn key_spec(&self) -> Seq<char> {
        self.comparison_key@
    }

    closed spec fn dim_spec(&self) -> u64 {
        self.dimension
    }

    fn comparison_key(&self) -> (r: String) {
        self.comparison_key.clone()
    }

    fn dimension(&self) -> (r: u64) {
        self.dimension
    }

    fn duplicate(&self) -> (r: Self) {
        proof {
            use_type_invariant(&*self);
        }
        LineQid {
            comparison_key: self.comparison_key.clone(),
            id: self.id,
            dimension: self.dimension,
        }
    }
}

impl PartialEq for LineQid {
    fn eq(&self, other: &Self) -> (r: bool) {
        self.comparison_key == other.comparison_key
    }
}

impl vstd::std_specs::cmp::PartialEqSpecImpl for LineQid {
    open spec fn obeys_eq_spec() -> bool {
        true
    }

    open spec fn eq_spec(&self, other: &Self) -> bool {
        self.key_spec() == other.key_spec()
    }
}

impl PartialOrd for LineQid {
    fn partial_cmp(&self, other: &Self) -> (r: Option<core::cmp::Ordering>) {
        Some(compare_chars(self.comparison_key.as_str(), other.comparison_key.as_str()))
    }
}

impl vstd::std_specs::cmp::PartialOrdSpecImpl for LineQid {
    open spec fn obeys_partial_cmp_spec() -> bool {
        true
    }

    open spec fn partial_cmp_spec(&self, other: &Self) -> Option<core::cmp::Ordering> {
        Some(lex_cmp(self.key_spec(), other.key_spec()))
    }
}

/// Two line qubits compare equal exactly when their comparison keys are
/// equal, regardless of dimension.
pub proof fn lemma_line_qid_eq_iff_key(a: &LineQid, b: &LineQid)
    ensures
        a.eq_spec(b) <==> a.key_spec() == b.key_spec(),
{
}

/// The identity effect over an explicit per-slot dimension sequence. Beyond
/// its shape it has no behaviour of its own, which makes it the simplest
/// concrete gate.
#[derive(Debug, PartialEq, Eq)]
pub struct IdentityGate {
    shape: Vec<u64>,
}

impl IdentityGate {
    /// Builds the identity effect over `shape`, failing with
    /// `InvalidDimension` when any slot dimension is below one.
    pub fn new(shape: Vec<u64>) -> (r: Result<Self, CirqError>)
        ensures
            r is Ok <==> (forall|i: int| 0 <= i < shape@.len() ==> shape@[i] >= 1),
            r matches Ok(g) ==> g.shape_spec() == shape@,
            r is Err ==> r == Err::<Self, CirqError>(CirqError::InvalidDimension),
    {
        let mut i: usize = 0;
        while i < shape.len()
            invariant
                i <= shape@.len(),
                forall|j: int| 0 <= j < i ==> shape@[j] >= 1,
            decreases shape@.len() - i,
        {
            if shape[i] < 1 {
                return Err(CirqError::InvalidDimension);
            }
            i += 1;
        }
        Ok(IdentityGate { shape })
    }
}

impl QIdShape for IdentityGate {
    closed spec fn shape_spec(&self) -> Seq<u64> {
        self.shape@
    }

    fn qid_shape(&self) -> (r: Vec<u64>) {
        let mut out: Vec<u64> = Vec::new();
        let mut i: usize = 0;
        while i < self.shape.len()
            invariant
                i <= self.shape@.len(),
                out@ == self.shape@.subrange(0, i as int),
            decreases self.shape@.len() - i,
        {
            out.push(self.shape[i]);
            proof {
                assert(out@ =~= self.shape@.subrange(0, i + 1 as int));
            }
            i += 1;
        }
        proof {
            assert(self.shape@.subrange(0, self.shape@.len() as int) =~= self.shape@);
        }
        out
    }
}

impl Gate for IdentityGate {
    fn duplicate(&self) -> (r: Self) {
        IdentityGate { shape: self.qid_shape() }
    }
}

/// A plain integer-valued tag: the simplest hashable annotation.
#[derive(Clone, Copy, Debug, PartialEq, Eq, Structural)]
pub struct ValueTag {
    /// The tag's payload, which also serves as its hash.
    pub value: u64,
}

impl Hashable for ValueTag {
    open spec fn hash_spec(&self) -> u64 {
        self.value
    }

    open spec fn tag_eq_spec(&self, other: &Self) -> bool {
        self.value == other.value
    }

    fn hash(&self) -> (r: u64) {
        self.value
    }

    fn tag_eq(&self, other: &Self) -> (r: bool) {
        self.value == other.value
    }

    fn duplicate(&self) -> (r: Self) {
        *self
    }

    proof fn lemma_hash_consistent(&self, other: &Self) {
    }
}

} // verus!
