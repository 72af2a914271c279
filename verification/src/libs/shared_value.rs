//! `dashmap::SharedValue`: the cell in which a `DashMap` shard holds each value.
use vstd::prelude::*;

use crate::{Field, TypeSize};

verus! {

/// `dashmap::SharedValue`, carried as an opaque value.
#[verifier::external_type_specification]
#[verifier::external_body]
#[verifier::reject_recursive_types(T)]
pub struct ExSharedValue<T>(::dashmap::SharedValue<T>);

/// `SharedValue::get`: the value that the cell holds. Its contents can change through a shared
/// reference, so Verus sees the cell only as an identity and nothing is stated of the value.
#[verifier::external_body]
fn shared_value_get<T>(v: &::dashmap::SharedValue<T>) -> &T {
    v.get()
}

impl<T: TypeSize> TypeSize for ::dashmap::SharedValue<T> {
    /// What some value of `T` may report.
    open spec fn is_extra_size(&self, n: nat) -> bool {
        exists|v: T| v.is_extra_size(n)
    }

    fn extra_size(&self) -> (r: usize) {
        let value = shared_value_get(self);
        assert forall|n: nat| #[trigger] value.is_extra_size(n) implies n <= usize::MAX by {
            assert(self.is_extra_size(n));
        }
        value.extra_size()
    }

    fn get_collection_item_count(&self) -> (r: Option<usize>) {
        None
    }

    fn get_size_details(&self) -> (r: Vec<Field>) {
        Vec::new()
    }
}

} // verus!
