use core::marker::PhantomData;
use core::sync::atomic::AtomicUsize;
use std::sync::Arc;
use vstd::prelude::*;
use vstd::layout::size_of;
use vstd::std_specs::convert::FromSpecImpl;

use super::{Borrowed, Owned, ShouldCountInner};
use crate::{Field, TypeSize};

verus! {

/// A wrapper around [`Arc`] to implement [`TypeSize`] by allowing you to decide if to count the
/// inner `T`'s size.
pub struct SizableArc<T, SC: ShouldCountInner>(pub Arc<T>, pub PhantomData<SC>);

impl<T, SC: ShouldCountInner> From<Arc<T>> for SizableArc<T, SC> {
    fn from(value: Arc<T>) -> (r: Self)
        ensures
            r.0 == value,
    {
        SizableArc(value, PhantomData)
    }
}

impl<T, SC: ShouldCountInner> FromSpecImpl<Arc<T>> for SizableArc<T, SC> {
    open spec fn obeys_from_spec() -> bool {
        true
    }

    open spec fn from_spec(v: Arc<T>) -> Self {
        SizableArc(v, PhantomData)
    }
}

impl<T, SC: ShouldCountInner> core::ops::Deref for SizableArc<T, SC> {
    type Target = Arc<T>;

    fn deref(&self) -> (r: &Arc<T>)
        ensures
            r == self.0,
    {
        &self.0
    }
}

impl<T> TypeSize for SizableArc<T, Borrowed> {
    /// Only the pointer is counted, and it is part of `size_of`.
    open spec fn is_extra_size(&self, n: nat) -> bool {
        n == 0
    }

    fn extra_size(&self) -> (r: usize) {
        0
    }

    fn get_collection_item_count(&self) -> (r: Option<usize>) {
        None
    }

    fn get_size_details(&self) -> (r: Vec<Field>) {
        Vec::new()
    }
}

impl<T: TypeSize> TypeSize for SizableArc<T, Owned> {
    /// The total size of the value plus the two `AtomicUsize` reference counts.
    open spec fn is_extra_size(&self, n: nat) -> bool {
        n >= size_of::<T>() + size_of::<AtomicUsize>() * 2 && (*self.0).is_extra_size(
            (n - size_of::<T>() - size_of::<AtomicUsize>() * 2) as nat,
        )
    }

    open spec fn is_item_count(&self, c: Option<usize>) -> bool {
        (*self.0).is_item_count(c)
    }

    open spec fn is_size_details(&self, d: Seq<Field>) -> bool {
        (*self.0).is_size_details(d)
    }

    fn extra_size(&self) -> (r: usize) {
        let inner: &T = &*self.0;
        proof {
            assert forall|e: nat| #[trigger] inner.is_extra_size(e) implies size_of::<T>() + e
                <= usize::MAX by {
                assert(self.is_extra_size(size_of::<T>() + size_of::<AtomicUsize>() * 2 + e));
            }
        }
        let size = inner.get_size();
        assert(self.is_extra_size(size as nat + size_of::<AtomicUsize>() * 2));
        size + core::mem::size_of::<AtomicUsize>() * 2
    }

    fn get_collection_item_count(&self) -> (r: Option<usize>) {
        let inner: &T = &*self.0;
        inner.get_collection_item_count()
    }

    fn get_size_details(&self) -> (r: Vec<Field>) {
        let inner: &T = &*self.0;
        proof {
            assert forall|e: nat| #[trigger] inner.is_extra_size(e) implies e <= usize::MAX by {
                assert(self.is_extra_size(size_of::<T>() + size_of::<AtomicUsize>() * 2 + e));
            }
        }
        inner.get_size_details()
    }
}

} // verus!
