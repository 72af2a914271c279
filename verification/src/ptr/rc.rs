use core::marker::PhantomData;
use std::cell::Cell;
use std::rc::Rc;
use vstd::prelude::*;
use vstd::layout::size_of;
use vstd::std_specs::convert::FromSpecImpl;

use super::{Borrowed, Owned, ShouldCountInner};
use crate::{Field, TypeSize};

verus! {

/// A wrapper around [`Rc`] to implement [`TypeSize`] by allowing you to decide if to count the
/// inner `T`'s size.
pub struct SizableRc<T, SC: ShouldCountInner>(pub Rc<T>, pub PhantomData<SC>);

impl<T, SC: ShouldCountInner> From<Rc<T>> for SizableRc<T, SC> {
    fn from(value: Rc<T>) -> (r: Self)
        ensures
            r.0 == value,
    {
        SizableRc(value, PhantomData)
    }
}

impl<T, SC: ShouldCountInner> FromSpecImpl<Rc<T>> for SizableRc<T, SC> {
    open spec fn obeys_from_spec() -> bool {
        true
    }

    open spec fn from_spec(v: Rc<T>) -> Self {
        SizableRc(v, PhantomData)
    }
}

impl<T, SC: ShouldCountInner> core::ops::Deref for SizableRc<T, SC> {
    type Target = Rc<T>;

    fn deref(&self) -> (r: &Rc<T>)
        ensures
            r == self.0,
    {
        &self.0
    }
}

impl<T> TypeSize for SizableRc<T, Borrowed> {
    /// Only the pointer is counted, and it is part of `size_of`.
    open spec fn is_extra_size(&self, n: nat) -> bool {
        n == 0
    }

    fn extra_size(&self) -> (r: usize) {
        0
    }

    fn get_collection_item_count(&self) -> (r: Option<usize>) {
        None
    }

    fn get_size_details(&self) -> (r: Vec<Field>) {
        Vec::new()
    }
}

impl<T: TypeSize> TypeSize for SizableRc<T, Owned> {
    /// The total size of the value plus the two `Cell<usize>` reference counts.
    open spec fn is_extra_size(&self, n: nat) -> bool {
        n >= size_of::<T>() + size_of::<Cell<usize>>() * 2 && (*self.0).is_extra_size(
            (n - size_of::<T>() - size_of::<Cell<usize>>() * 2) as nat,
        )
    }

    open spec fn is_item_count(&self, c: Option<usize>) -> bool {
        (*self.0).is_item_count(c)
    }

    fn extra_size(&self) -> (r: usize) {
        let inner: &T = &*self.0;
        proof {
            assert forall|e: nat| #[trigger] inner.is_extra_size(e) implies size_of::<T>() + e
                <= usize::MAX by {
                assert(self.is_extra_size(size_of::<T>() + size_of::<Cell<usize>>() * 2 + e));
            }
        }
        let size = inner.get_size();
        assert(self.is_extra_size(size as nat + size_of::<Cell<usize>>() * 2));
        size + core::mem::size_of::<Cell<usize>>() * 2
    }

    fn get_collection_item_count(&self) -> (r: Option<usize>) {
        let inner: &T = &*self.0;
        inner.get_collection_item_count()
    }

    fn get_size_details(&self) -> (r: Vec<Field>) {
        Vec::new()
    }
}

} // verus!
