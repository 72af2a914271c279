//! `extract_map::ExtractMap`: a hash set of values that each carry their own key, estimated as a
//! buffer of its values.
use vstd::prelude::*;

use crate::sizes::{
    are_total_sizes, deref_all, is_buffer_extra_size, sum_of,
};
use crate::vec::generic_vec_extra_size;
use crate::{Field, TypeSize};

verus! {

/// `extract_map::ExtractMap`, carried as an opaque value.
#[verifier::external_type_specification]
#[verifier::external_body]
#[verifier::reject_recursive_types(K)]
#[verifier::reject_recursive_types(V)]
#[verifier::reject_recursive_types(S)]
pub struct ExExtractMap<K, V, S>(::extract_map::ExtractMap<K, V, S>);

/// `ExtractMap::iter`, collected: every value of the map, once each. The map is opaque here, so
/// which values come out is not stated.
#[verifier::external_body]
fn extract_map_values<K, V, S>(m: &::extract_map::ExtractMap<K, V, S>) -> (r: Vec<&V>) {
    m.iter().collect()
}

/// `ExtractMap::capacity`: that of the standard `HashSet` that holds the values. The set keeps it
/// at least the length, which a separate call reads, so that is not stated.
#[verifier::external_body]
fn extract_map_capacity<K, V, S>(m: &::extract_map::ExtractMap<K, V, S>) -> (r: usize) {
    m.capacity()
}

/// `ExtractMap::len`. The map is opaque here, so nothing is stated of it.
#[verifier::external_body]
fn extract_map_len<K, V, S>(m: &::extract_map::ExtractMap<K, V, S>) -> (r: usize) {
    m.len()
}

impl<K, V: TypeSize, S> TypeSize for ::extract_map::ExtractMap<K, V, S> {
    /// The buffer estimate over some values, as many as the length, and a capacity of at least
    /// the length.
    open spec fn is_extra_size(&self, n: nat) -> bool {
        exists|items: Seq<V>, capacity: nat|
            #![trigger is_buffer_extra_size(items, capacity as int, items.len() as int, n)]
            {
                &&& items.len() <= capacity <= usize::MAX
                &&& is_buffer_extra_size(items, capacity as int, items.len() as int, n)
            }
    }

    open spec fn is_item_count(&self, c: Option<usize>) -> bool {
        c is Some
    }

    fn extra_size(&self) -> (r: usize) {
        let refs = extract_map_values(self);
        let read_capacity = extract_map_capacity(self);
        // The iterator hands out every value once, so the values it handed out number the
        // length.
        let len = refs.len();
        // The map never reports a capacity below its length; the length stands in for such a
        // reading.
        let capacity = if read_capacity < len {
            len
        } else {
            read_capacity
        };
        let ghost items = deref_all(refs@);
        proof {
            assert forall|s: Seq<nat>| #[trigger] are_total_sizes(items, s) implies sum_of(s) + (
            capacity - len) * vstd::layout::size_of::<V>() <= usize::MAX by {
                let n = (sum_of(s) + (capacity - len) * vstd::layout::size_of::<V>()) as nat;
                assert(is_buffer_extra_size(items, capacity as int, len as int, n));
                assert(self.is_extra_size(n));
            }
        }
        generic_vec_extra_size(refs.as_slice(), capacity, len)
    }

    fn get_collection_item_count(&self) -> (r: Option<usize>) {
        Some(extract_map_len(self))
    }

    fn get_size_details(&self) -> (r: Vec<Field>) {
        Vec::new()
    }
}

} // verus!
