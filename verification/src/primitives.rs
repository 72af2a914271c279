//! Types that hold no allocation: their size is exactly their `size_of`.
use core::num::{Saturating, Wrapping};
use core::sync::atomic::{
    AtomicBool, AtomicI16, AtomicI32, AtomicI64, AtomicI8, AtomicIsize, AtomicU16, AtomicU32,
    AtomicU64, AtomicU8, AtomicUsize,
};
use vstd::prelude::*;

use crate::sizes::{are_extra_sizes, lemma_extra_sizes_exist, sum_extra_sizes, sum_of};
use crate::{Field, TypeSize};

verus! {

/// `core::num::Wrapping`, carried as an opaque value.
#[verifier::external_type_specification]
#[verifier::external_body]
#[verifier::reject_recursive_types(T)]
pub struct ExWrapping<T>(Wrapping<T>);

/// `core::num::Saturating`, carried as an opaque value.
#[verifier::external_type_specification]
#[verifier::external_body]
#[verifier::reject_recursive_types(T)]
pub struct ExSaturating<T>(Saturating<T>);

impl<const N: usize, T: TypeSize> TypeSize for [T; N] {
    /// The extra sizes of the elements (their own sizes are part of the array's).
    open spec fn is_extra_size(&self, n: nat) -> bool {
        exists|s: Seq<nat>| #[trigger] are_extra_sizes(self@, s) && n == sum_of(s)
    }

    open spec fn is_item_count(&self, c: Option<usize>) -> bool {
        c == Some(N)
    }

    fn extra_size(&self) -> (r: usize) {
        let items: &[T] = self.as_slice();
        proof {
            assert forall|s: Seq<nat>| #[trigger] are_extra_sizes(items@, s) implies sum_of(s)
                <= usize::MAX by {
                assert(self.is_extra_size(sum_of(s)));
            }
        }
        sum_extra_sizes(items)
    }

    fn get_collection_item_count(&self) -> (r: Option<usize>) {
        Some(N)
    }

    fn get_size_details(&self) -> (r: Vec<Field>) {
        Vec::new()
    }
}

impl TypeSize for () {
    fn extra_size(&self) -> (r: usize) {
        0
    }

    fn get_collection_item_count(&self) -> (r: Option<usize>) {
        None
    }

    fn get_size_details(&self) -> (r: Vec<Field>) {
        Vec::new()
    }
}

impl TypeSize for bool {
    fn extra_size(&self) -> (r: usize) {
        0
    }

    fn get_collection_item_count(&self) -> (r: Option<usize>) {
        None
    }

    fn get_size_details(&self) -> (r: Vec<Field>) {
        Vec::new()
    }
}

impl TypeSize for u8 {
    fn extra_size(&self) -> (r: usize) {
        0
    }

    fn get_collection_item_count(&self) -> (r: Option<usize>) {
        None
    }

    fn get_size_details(&self) -> (r: Vec<Field>) {
        Vec::new()
    }
}

impl TypeSize for u16 {
    fn extra_size(&self) -> (r: usize) {
        0
    }

    fn get_collection_item_count(&self) -> (r: Option<usize>) {
        None
    }

    fn get_size_details(&self) -> (r: Vec<Field>) {
        Vec::new()
    }
}

impl TypeSize for u32 {
    fn extra_size(&self) -> (r: usize) {
        0
    }

    fn get_collection_item_count(&self) -> (r: Option<usize>) {
        None
    }

    fn get_size_details(&self) -> (r: Vec<Field>) {
        Vec::new()
    }
}

impl TypeSize for u64 {
    fn extra_size(&self) -> (r: usize) {
        0
    }

    fn get_collection_item_count(&self) -> (r: Option<usize>) {
        None
    }

    fn get_size_details(&self) -> (r: Vec<Field>) {
        Vec::new()
    }
}

impl TypeSize for u128 {
    fn extra_size(&self) -> (r: usize) {
        0
    }

    fn get_collection_item_count(&self) -> (r: Option<usize>) {
        None
    }

    fn get_size_details(&self) -> (r: Vec<Field>) {
        Vec::new()
    }
}

impl TypeSize for usize {
    fn extra_size(&self) -> (r: usize) {
        0
    }

    fn get_collection_item_count(&self) -> (r: Option<usize>) {
        None
    }

    fn get_size_details(&self) -> (r: Vec<Field>) {
        Vec::new()
    }
}

impl TypeSize for i8 {
    fn extra_size(&self) -> (r: usize) {
        0
    }

    fn get_collection_item_count(&self) -> (r: Option<usize>) {
        None
    }

    fn get_size_details(&self) -> (r: Vec<Field>) {
        Vec::new()
    }
}

impl TypeSize for i16 {
    fn extra_size(&self) -> (r: usize) {
        0
    }

    fn get_collection_item_count(&self) -> (r: Option<usize>) {
        None
    }

    fn get_size_details(&self) -> (r: Vec<Field>) {
        Vec::new()
    }
}

impl TypeSize for i32 {
    fn extra_size(&self) -> (r: usize) {
        0
    }

    fn get_collection_item_count(&self) -> (r: Option<usize>) {
        None
    }

    fn get_size_details(&self) -> (r: Vec<Field>) {
        Vec::new()
    }
}

impl TypeSize for i64 {
    fn extra_size(&self) -> (r: usize) {
        0
    }

    fn get_collection_item_count(&self) -> (r: Option<usize>) {
        None
    }

    fn get_size_details(&self) -> (r: Vec<Field>) {
        Vec::new()
    }
}

impl TypeSize for i128 {
    fn extra_size(&self) -> (r: usize) {
        0
    }

    fn get_collection_item_count(&self) -> (r: Option<usize>) {
        None
    }

    fn get_size_details(&self) -> (r: Vec<Field>) {
        Vec::new()
    }
}

impl TypeSize for isize {
    fn extra_size(&self) -> (r: usize) {
        0
    }

    fn get_collection_item_count(&self) -> (r: Option<usize>) {
        None
    }

    fn get_size_details(&self) -> (r: Vec<Field>) {
        Vec::new()
    }
}

impl TypeSize for AtomicBool {
    fn extra_size(&self) -> (r: usize) {
        0
    }

    fn get_collection_item_count(&self) -> (r: Option<usize>) {
        None
    }

    fn get_size_details(&self) -> (r: Vec<Field>) {
        Vec::new()
    }
}

impl TypeSize for AtomicU8 {
    fn extra_size(&self) -> (r: usize) {
        0
    }

    fn get_collection_item_count(&self) -> (r: Option<usize>) {
        None
    }

    fn get_size_details(&self) -> (r: Vec<Field>) {
        Vec::new()
    }
}

impl TypeSize for AtomicU16 {
    fn extra_size(&self) -> (r: usize) {
        0
    }

    fn get_collection_item_count(&self) -> (r: Option<usize>) {
        None
    }

    fn get_size_details(&self) -> (r: Vec<Field>) {
        Vec::new()
    }
}

impl TypeSize for AtomicU32 {
    fn extra_size(&self) -> (r: usize) {
        0
    }

    fn get_collection_item_count(&self) -> (r: Option<usize>) {
        None
    }

    fn get_size_details(&self) -> (r: Vec<Field>) {
        Vec::new()
    }
}

impl TypeSize for AtomicU64 {
    fn extra_size(&self) -> (r: usize) {
        0
    }

    fn get_collection_item_count(&self) -> (r: Option<usize>) {
        None
    }

    fn get_size_details(&self) -> (r: Vec<Field>) {
        Vec::new()
    }
}

impl TypeSize for AtomicUsize {
    fn extra_size(&self) -> (r: usize) {
        0
    }

    fn get_collection_item_count(&self) -> (r: Option<usize>) {
        None
    }

    fn get_size_details(&self) -> (r: Vec<Field>) {
        Vec::new()
    }
}

impl TypeSize for AtomicI8 {
    fn extra_size(&self) -> (r: usize) {
        0
    }

    fn get_collection_item_count(&self) -> (r: Option<usize>) {
        None
    }

    fn get_size_details(&self) -> (r: Vec<Field>) {
        Vec::new()
    }
}

impl TypeSize for AtomicI16 {
    fn extra_size(&self) -> (r: usize) {
        0
    }

    fn get_collection_item_count(&self) -> (r: Option<usize>) {
        None
    }

    fn get_size_details(&self) -> (r: Vec<Field>) {
        Vec::new()
    }
}

impl TypeSize for AtomicI32 {
    fn extra_size(&self) -> (r: usize) {
        0
    }

    fn get_collection_item_count(&self) -> (r: Option<usize>) {
        None
    }

    fn get_size_details(&self) -> (r: Vec<Field>) {
        Vec::new()
    }
}

impl TypeSize for AtomicI64 {
    fn extra_size(&self) -> (r: usize) {
        0
    }

    fn get_collection_item_count(&self) -> (r: Option<usize>) {
        None
    }

    fn get_size_details(&self) -> (r: Vec<Field>) {
        Vec::new()
    }
}

impl TypeSize for AtomicIsize {
    fn extra_size(&self) -> (r: usize) {
        0
    }

    fn get_collection_item_count(&self) -> (r: Option<usize>) {
        None
    }

    fn get_size_details(&self) -> (r: Vec<Field>) {
        Vec::new()
    }
}

impl TypeSize for Wrapping<u8> {
    fn extra_size(&self) -> (r: usize) {
        0
    }

    fn get_collection_item_count(&self) -> (r: Option<usize>) {
        None
    }

    fn get_size_details(&self) -> (r: Vec<Field>) {
        Vec::new()
    }
}

impl TypeSize for Wrapping<u16> {
    fn extra_size(&self) -> (r: usize) {
        0
    }

    fn get_collection_item_count(&self) -> (r: Option<usize>) {
        None
    }

    fn get_size_details(&self) -> (r: Vec<Field>) {
        Vec::new()
    }
}

impl TypeSize for Wrapping<u32> {
    fn extra_size(&self) -> (r: usize) {
        0
    }

    fn get_collection_item_count(&self) -> (r: Option<usize>) {
        None
    }

    fn get_size_details(&self) -> (r: Vec<Field>) {
        Vec::new()
    }
}

impl TypeSize for Wrapping<u64> {
    fn extra_size(&self) -> (r: usize) {
        0
    }

    fn get_collection_item_count(&self) -> (r: Option<usize>) {
        None
    }

    fn get_size_details(&self) -> (r: Vec<Field>) {
        Vec::new()
    }
}

impl TypeSize for Wrapping<u128> {
    fn extra_size(&self) -> (r: usize) {
        0
    }

    fn get_collection_item_count(&self) -> (r: Option<usize>) {
        None
    }

    fn get_size_details(&self) -> (r: Vec<Field>) {
        Vec::new()
    }
}

impl TypeSize for Wrapping<usize> {
    fn extra_size(&self) -> (r: usize) {
        0
    }

    fn get_collection_item_count(&self) -> (r: Option<usize>) {
        None
    }

    fn get_size_details(&self) -> (r: Vec<Field>) {
        Vec::new()
    }
}

impl TypeSize for Wrapping<i8> {
    fn extra_size(&self) -> (r: usize) {
        0
    }

    fn get_collection_item_count(&self) -> (r: Option<usize>) {
        None
    }

    fn get_size_details(&self) -> (r: Vec<Field>) {
        Vec::new()
    }
}

impl TypeSize for Wrapping<i16> {
    fn extra_size(&self) -> (r: usize) {
        0
    }

    fn get_collection_item_count(&self) -> (r: Option<usize>) {
        None
    }

    fn get_size_details(&self) -> (r: Vec<Field>) {
        Vec::new()
    }
}

impl TypeSize for Wrapping<i32> {
    fn extra_size(&self) -> (r: usize) {
        0
    }

    fn get_collection_item_count(&self) -> (r: Option<usize>) {
        None
    }

    fn get_size_details(&self) -> (r: Vec<Field>) {
        Vec::new()
    }
}

impl TypeSize for Wrapping<i64> {
    fn extra_size(&self) -> (r: usize) {
        0
    }

    fn get_collection_item_count(&self) -> (r: Option<usize>) {
        None
    }

    fn get_size_details(&self) -> (r: Vec<Field>) {
        Vec::new()
    }
}

impl TypeSize for Wrapping<i128> {
    fn extra_size(&self) -> (r: usize) {
        0
    }

    fn get_collection_item_count(&self) -> (r: Option<usize>) {
        None
    }

    fn get_size_details(&self) -> (r: Vec<Field>) {
        Vec::new()
    }
}

impl TypeSize for Wrapping<isize> {
    fn extra_size(&self) -> (r: usize) {
        0
    }

    fn get_collection_item_count(&self) -> (r: Option<usize>) {
        None
    }

    fn get_size_details(&self) -> (r: Vec<Field>) {
        Vec::new()
    }
}

impl TypeSize for Saturating<u8> {
    fn extra_size(&self) -> (r: usize) {
        0
    }

    fn get_collection_item_count(&self) -> (r: Option<usize>) {
        None
    }

    fn get_size_details(&self) -> (r: Vec<Field>) {
        Vec::new()
    }
}

impl TypeSize for Saturating<u16> {
    fn extra_size(&self) -> (r: usize) {
        0
    }

    fn get_collection_item_count(&self) -> (r: Option<usize>) {
        None
    }

    fn get_size_details(&self) -> (r: Vec<Field>) {
        Vec::new()
    }
}

impl TypeSize for Saturating<u32> {
    fn extra_size(&self) -> (r: usize) {
        0
    }

    fn get_collection_item_count(&self) -> (r: Option<usize>) {
        None
    }

    fn get_size_details(&self) -> (r: Vec<Field>) {
        Vec::new()
    }
}

impl TypeSize for Saturating<u64> {
    fn extra_size(&self) -> (r: usize) {
        0
    }

    fn get_collection_item_count(&self) -> (r: Option<usize>) {
        None
    }

    fn get_size_details(&self) -> (r: Vec<Field>) {
        Vec::new()
    }
}

impl TypeSize for Saturating<u128> {
    fn extra_size(&self) -> (r: usize) {
        0
    }

    fn get_collection_item_count(&self) -> (r: Option<usize>) {
        None
    }

    fn get_size_details(&self) -> (r: Vec<Field>) {
        Vec::new()
    }
}

impl TypeSize for Saturating<usize> {
    fn extra_size(&self) -> (r: usize) {
        0
    }

    fn get_collection_item_count(&self) -> (r: Option<usize>) {
        None
    }

    fn get_size_details(&self) -> (r: Vec<Field>) {
        Vec::new()
    }
}

impl TypeSize for Saturating<i8> {
    fn extra_size(&self) -> (r: usize) {
        0
    }

    fn get_collection_item_count(&self) -> (r: Option<usize>) {
        None
    }

    fn get_size_details(&self) -> (r: Vec<Field>) {
        Vec::new()
    }
}

impl TypeSize for Saturating<i16> {
    fn extra_size(&self) -> (r: usize) {
        0
    }

    fn get_collection_item_count(&self) -> (r: Option<usize>) {
        None
    }

    fn get_size_details(&self) -> (r: Vec<Field>) {
        Vec::new()
    }
}

impl TypeSize for Saturating<i32> {
    fn extra_size(&self) -> (r: usize) {
        0
    }

    fn get_collection_item_count(&self) -> (r: Option<usize>) {
        None
    }

    fn get_size_details(&self) -> (r: Vec<Field>) {
        Vec::new()
    }
}

impl TypeSize for Saturating<i64> {
    fn extra_size(&self) -> (r: usize) {
        0
    }

    fn get_collection_item_count(&self) -> (r: Option<usize>) {
        None
    }

    fn get_size_details(&self) -> (r: Vec<Field>) {
        Vec::new()
    }
}

impl TypeSize for Saturating<i128> {
    fn extra_size(&self) -> (r: usize) {
        0
    }

    fn get_collection_item_count(&self) -> (r: Option<usize>) {
        None
    }

    fn get_size_details(&self) -> (r: Vec<Field>) {
        Vec::new()
    }
}

impl TypeSize for Saturating<isize> {
    fn extra_size(&self) -> (r: usize) {
        0
    }

    fn get_collection_item_count(&self) -> (r: Option<usize>) {
        None
    }

    fn get_size_details(&self) -> (r: Vec<Field>) {
        Vec::new()
    }
}

} // verus!
