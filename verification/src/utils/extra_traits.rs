//! The capability that tag values must satisfy.

use vstd::prelude::*;

verus! {

/// Capability required of every value attached to an operation as a tag.
///
/// A tag must expose a stable hash so consumers can deduplicate or index
/// tags, an equality test consistent with that hash, and it must be
/// duplicable without losing identity.
pub trait Hashable: Sized {
    /// The hash of this tag, as a mathematical value.
    spec fn hash_spec(&self) -> u64;

    /// What it means for two tags to be equal.
    spec fn tag_eq_spec(&self, other: &Self) -> bool;

    /// Returns the tag's stable hash.
    fn hash(&self) -> (r: u64)
        ensures
            r == self.hash_spec(),
    ;

    /// Decides equality of two tags.
    fn tag_eq(&self, other: &Self) -> (r: bool)
        ensures
            r == self.tag_eq_spec(other),
    ;

    /// Produces an independent value equal to this one.
    fn duplicate(&self) -> (r: Self)
        ensures
            r == *self,
    ;

    /// Equal tags must have equal hashes, so consumers that deduplicate by
    /// hash stay consistent with equality.
    proof fn lemma_hash_consistent(&self, other: &Self)
        ensures
            self.tag_eq_spec(other) ==> self.hash_spec() == other.hash_spec(),
    ;
}

/// Duplicates every tag of a list, preserving order and values.
pub fn duplicate_tags<T: Hashable>(tags: &Vec<T>) -> (r: Vec<T>)
    ensures
        r@ == tags@,
{
    let mut out: Vec<T> = Vec::new();
    let mut i: usize = 0;
    while i < tags.len()
        invariant
            i <= tags@.len(),
            out@ == tags@.subrange(0, i as int),
        decreases tags@.len() - i,
    {
        let t = &tags[i];
        out.push(t.duplicate());
        proof {
            assert(out@ =~= tags@.subrange(0, i + 1 as int));
        }
        i += 1;
    }
    proof {
        assert(tags@.subrange(0, tags@.len() as int) =~= tags@);
    }
    out
}

} // verus!
