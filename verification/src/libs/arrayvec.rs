//! `arrayvec::ArrayVec`: an inline array of at most `CAP` elements.

use vstd::prelude::*;

use crate::sizes::{are_extra_sizes, lemma_extra_sizes_exist, sum_extra_sizes, sum_of};
use crate::{Field, TypeSize};

verus! {

/// `arrayvec::ArrayVec`, carried as an opaque value.
#[verifier::external_type_specification]
#[verifier::external_body]
#[verifier::reject_recursive_types(T)]
pub struct ExArrayVec<T, const CAP: usize>(::arrayvec::ArrayVec<T, CAP>);

/// `ArrayVec::as_slice`: the elements, at most `CAP` of them as the type documents. Which
/// elements they are is not stated: nothing names what a generic `ArrayVec` holds.
#[verifier::external_body]
fn array_vec_items<T, const CAP: usize>(v: &::arrayvec::ArrayVec<T, CAP>) -> (r: &[T])
    ensures
        r@.len() <= CAP,
{
    v.as_slice()
}

/// The extra sizes that a sequence of at most `cap` elements may report.
pub open spec fn is_inline_extra_size<T: TypeSize>(cap: nat, n: nat) -> bool {
    exists|items: Seq<T>, s: Seq<nat>|
        #![trigger are_extra_sizes(items, s)]
        items.len() <= cap && are_extra_sizes(items, s) && n == sum_of(s)
}

impl<T: TypeSize, const CAP: usize> TypeSize for ::arrayvec::ArrayVec<T, CAP> {
    /// The extra sizes of some at most `CAP` elements (their own sizes are part of the
    /// `ArrayVec`'s).
    open spec fn is_extra_size(&self, n: nat) -> bool {
        is_inline_extra_size::<T>(CAP as nat, n)
    }

    fn extra_size(&self) -> (r: usize) {
        let items = array_vec_items(self);
        proof {
            assert forall|s: Seq<nat>| #[trigger] are_extra_sizes(items@, s) implies sum_of(s)
                <= usize::MAX by {
                assert(self.is_extra_size(sum_of(s)));
            }
        }
        let r = sum_extra_sizes(items);
        let ghost s = choose|s: Seq<nat>| #[trigger] are_extra_sizes(items@, s) && r == sum_of(s);
        assert(is_inline_extra_size::<T>(CAP as nat, r as nat));
        r
    }

    fn get_collection_item_count(&self) -> (r: Option<usize>) {
        None
    }

    fn get_size_details(&self) -> (r: Vec<Field>) {
        Vec::new()
    }
}

} // verus!
