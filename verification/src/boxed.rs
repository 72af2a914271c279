//! Owned heap allocations: `Box<T>`, `Box<[T]>` and `Box<str>`.
use vstd::prelude::*;
use vstd::layout::size_of;
use vstd::utf8::encode_utf8;

use crate::sizes::{are_total_sizes, sum_of, sum_total_sizes, lemma_total_sizes_exist};
use crate::{Field, TypeSize};

verus! {

impl<T: TypeSize> TypeSize for Box<[T]> {
    /// The total sizes of the elements behind the pointer.
    open spec fn is_extra_size(&self, n: nat) -> bool {
        exists|s: Seq<nat>| #[trigger] are_total_sizes((**self)@, s) && n == sum_of(s)
    }

    open spec fn is_item_count(&self, c: Option<usize>) -> bool {
        c == Some((**self)@.len() as usize)
    }

    fn extra_size(&self) -> (r: usize) {
        let items: &[T] = &**self;
        proof {
            assert forall|s: Seq<nat>| #[trigger] are_total_sizes(items@, s) implies sum_of(s)
                <= usize::MAX by {
                assert(self.is_extra_size(sum_of(s)));
            }
        }
        sum_total_sizes(items)
    }

    fn get_collection_item_count(&self) -> (r: Option<usize>) {
        Some(self.len())
    }

    fn get_size_details(&self) -> (r: Vec<Field>) {
        Vec::new()
    }
}

impl TypeSize for Box<str> {
    /// One `u8` for every byte of the string.
    open spec fn is_extra_size(&self, n: nat) -> bool {
        n == size_of::<u8>() * encode_utf8((**self)@).len()
    }

    open spec fn is_item_count(&self, c: Option<usize>) -> bool {
        c == Some(encode_utf8((**self)@).len() as usize)
    }

    fn extra_size(&self) -> (r: usize) {
        let text: &str = &**self;
        assert(self.is_extra_size(size_of::<u8>() * encode_utf8(text@).len()));
        core::mem::size_of::<u8>() * text.len()
    }

    fn get_collection_item_count(&self) -> (r: Option<usize>) {
        let text: &str = &**self;
        Some(text.len())
    }

    fn get_size_details(&self) -> (r: Vec<Field>) {
        Vec::new()
    }
}

impl<T: TypeSize> TypeSize for Box<T> {
    /// The total size of the boxed value.
    open spec fn is_extra_size(&self, n: nat) -> bool {
        n >= size_of::<T>() && (**self).is_extra_size((n - size_of::<T>()) as nat)
    }

    open spec fn is_item_count(&self, c: Option<usize>) -> bool {
        (**self).is_item_count(c)
    }

    open spec fn is_size_details(&self, d: Seq<Field>) -> bool {
        (**self).is_size_details(d)
    }

    fn extra_size(&self) -> (r: usize) {
        let inner: &T = &**self;
        proof {
            assert forall|e: nat| #[trigger] inner.is_extra_size(e) implies size_of::<T>() + e
                <= usize::MAX by {
                assert(self.is_extra_size(size_of::<T>() + e));
            }
        }
        inner.get_size()
    }

    fn get_collection_item_count(&self) -> (r: Option<usize>) {
        let inner: &T = &**self;
        inner.get_collection_item_count()
    }

    fn get_size_details(&self) -> (r: Vec<Field>) {
        let inner: &T = &**self;
        proof {
            assert forall|e: nat| #[trigger] inner.is_extra_size(e) implies size_of::<T>() + e
                <= usize::MAX by {
                assert(self.is_extra_size(size_of::<T>() + e));
            }
        }
        inner.get_size_details()
    }
}

} // verus!
