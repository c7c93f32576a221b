//! Lengths of the insertion-ordered collections of `indexmap`.

use vstd::prelude::*;

use super::length::ValidateLength;

verus! {

/// `indexmap::IndexMap`, a hash map that keeps its insertion order.
#[verifier::external_type_specification]
#[verifier::external_body]
#[verifier::reject_recursive_types(K)]
#[verifier::reject_recursive_types(V)]
#[verifier::reject_recursive_types(S)]
pub struct ExIndexMap<K, V, S>(indexmap::IndexMap<K, V, S>);

/// `indexmap::IndexSet`, a hash set that keeps its insertion order.
#[verifier::external_type_specification]
#[verifier::external_body]
#[verifier::reject_recursive_types(T)]
#[verifier::reject_recursive_types(S)]
pub struct ExIndexSet<T, S>(indexmap::IndexSet<T, S>);

/// `IndexMap::len`: the number of entries. Nothing is stated of it, since the map is opaque.
pub assume_specification<K, V, S>[ indexmap::IndexMap::<K, V, S>::len ](
    m: &indexmap::IndexMap<K, V, S>,
) -> usize;

/// `IndexSet::len`: the number of elements. Nothing is stated of it, since the set is opaque.
pub assume_specification<T, S>[ indexmap::IndexSet::<T, S>::len ](
    s: &indexmap::IndexSet<T, S>,
) -> usize;

impl<T> ValidateLength<usize> for indexmap::IndexSet<T> {
    /// The collection is opaque here: only that a length is given is stated.
    open spec fn has_length(&self, l: Option<usize>) -> bool {
        l is Some
    }

    fn length(&self) -> (r: Option<usize>) {
        Some(self.len())
    }
}

impl<K, V> ValidateLength<usize> for indexmap::IndexMap<K, V> {
    /// The collection is opaque here: only that a length is given is stated.
    open spec fn has_length(&self, l: Option<usize>) -> bool {
        l is Some
    }

    fn length(&self) -> (r: Option<usize>) {
        Some(self.len())
    }
}

} // verus!
