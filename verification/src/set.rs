//! `HashSet`: estimated as a buffer of its items.
use std::collections::HashSet;
use vstd::prelude::*;
use vstd::layout::size_of;
use vstd::std_specs::hash::{builds_valid_hashers, obeys_key_model};

use crate::sizes::{are_total_sizes, deref_all, is_buffer_extra_size, lemma_total_sizes_exist, sum_of};
use crate::vec::generic_vec_extra_size;
use crate::{Field, TypeSize};

verus! {

/// `items` lists every element of `s` and nothing else.
pub open spec fn lists_items<T>(s: Set<T>, items: Seq<T>) -> bool {
    &&& forall|i: int| 0 <= i < items.len() ==> s.contains(#[trigger] items[i])
    &&& forall|a: T| #[trigger] s.contains(a) ==> items.contains(a)
}

/// `HashSet::iter`, collected: the set's elements in the order in which the iterator visits
/// them. The standard library documents that the iterator visits every element; the contract
/// states it where vstd models the set (`obeys_key_model` and `builds_valid_hashers`). The order
/// is left unstated.
#[verifier::external_body]
fn hash_set_items<T, S>(s: &HashSet<T, S>) -> (r: Vec<&T>)
    ensures
        r@.len() == s.len(),
        obeys_key_model::<T>() && builds_valid_hashers::<S>() ==> lists_items(s@, deref_all(r@)),
{
    s.iter().collect()
}

/// `HashSet::capacity`, which the standard library documents as never below the length; it
/// documents no upper bound.
#[verifier::external_body]
fn hash_set_capacity<T, S>(s: &HashSet<T, S>) -> (r: usize)
    ensures
        r >= s.len(),
{
    s.capacity()
}

impl<T: TypeSize, S> TypeSize for HashSet<T, S> {
    /// The buffer estimate over the set's elements, with a capacity of at least the length.
    open spec fn is_extra_size(&self, n: nat) -> bool {
        exists|items: Seq<T>, capacity: nat|
            #![trigger is_buffer_extra_size(items, capacity as int, self.len() as int, n)]
            {
                &&& self.len() <= capacity <= usize::MAX
                &&& items.len() == self.len()
                &&& obeys_key_model::<T>() && builds_valid_hashers::<S>() && self@.finite()
                    ==> lists_items(self@, items)
                &&& is_buffer_extra_size(items, capacity as int, self.len() as int, n)
            }
    }

    fn extra_size(&self) -> (r: usize) {
        let refs = hash_set_items(self);
        let capacity = hash_set_capacity(self);
        let len = self.len();
        let ghost items = deref_all(refs@);
        proof {
            assert forall|s: Seq<nat>| #[trigger] are_total_sizes(items, s) implies sum_of(s) + (
            capacity - len) * size_of::<T>() <= usize::MAX by {
                let n = (sum_of(s) + (capacity - len) * size_of::<T>()) as nat;
                assert(is_buffer_extra_size(items, capacity as int, len as int, n));
                assert(self.is_extra_size(n));
            }
        }
        let r = generic_vec_extra_size(refs.as_slice(), capacity, len);
        assert(is_buffer_extra_size(items, capacity as int, len as int, r as nat));
        r
    }

    fn get_collection_item_count(&self) -> (r: Option<usize>) {
        None
    }

    fn get_size_details(&self) -> (r: Vec<Field>) {
        Vec::new()
    }
}

} // verus!
