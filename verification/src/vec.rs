//! Contiguous buffers: `Vec`, `VecDeque` and `String`.
use std::collections::VecDeque;
use vstd::prelude::*;
use vstd::layout::size_of;
use vstd::utf8::encode_utf8;

use crate::sizes::{
    lemma_unused_fits, unused_fits, are_total_sizes, deref_all, is_buffer_extra_size, is_total_size, lemma_deref_all_push, lemma_prefix_total_bounded, lemma_sum_push,
    lemma_total_sizes_exist, sum_of,
};
use crate::{Field, TypeSize};

verus! {

/// `Vec::capacity`, which the standard library documents as never below the length, and whose
/// buffer never exceeds `isize::MAX` bytes.
#[verifier::external_body]
pub(crate) fn vec_capacity<T>(v: &Vec<T>) -> (r: usize)
    ensures
        r >= v@.len(),
        r * size_of::<T>() <= isize::MAX,
{
    v.capacity()
}

/// `VecDeque::capacity`, which the standard library documents as never below the length, and
/// whose buffer never exceeds `isize::MAX` bytes.
#[verifier::external_body]
fn vec_deque_capacity<T>(v: &VecDeque<T>) -> (r: usize)
    ensures
        r >= v@.len(),
        r * size_of::<T>() <= isize::MAX,
{
    v.capacity()
}

/// `String::capacity`, in bytes, which the standard library documents as never below the
/// length in bytes nor above `isize::MAX`.
#[verifier::external_body]
fn string_capacity(s: &String) -> (r: usize)
    ensures
        r >= encode_utf8(s@).len(),
        r <= isize::MAX,
{
    s.capacity()
}

/// The extra size of a buffer of `capacity` slots of which `len` are in use, holding the values
/// behind `items`: the total size of every item plus `size_of::<T>()` for every unused slot.
pub fn generic_vec_extra_size<T: TypeSize>(items: &[&T], capacity: usize, len: usize) -> (r: usize)
    requires
        len <= capacity,
        forall|s: Seq<nat>| #[trigger]
            are_total_sizes(deref_all(items@), s) ==> sum_of(s) + (capacity - len) * size_of::<T>()
                <= usize::MAX,
    ensures
        is_buffer_extra_size(deref_all(items@), capacity as int, len as int, r as nat),
{
    let ghost all = deref_all(items@);
    let ghost unused = (capacity - len) * size_of::<T>();
    proof {
        lemma_total_sizes_exist(all);
        let s = choose|s: Seq<nat>| are_total_sizes(all, s);
        assert(sum_of(s) + unused <= usize::MAX);
    }
    let mut total: usize = 0;
    let ghost mut sizes: Seq<nat> = Seq::empty();
    let mut i: usize = 0;
    while i < items.len()
        invariant
            i <= items.len(),
            all == deref_all(items@),
            all.len() == items@.len(),
            unused == (capacity - len) * size_of::<T>(),
            unused >= 0,
            forall|s: Seq<nat>| #[trigger]
                are_total_sizes(all, s) ==> sum_of(s) + unused <= usize::MAX,
            are_total_sizes(all.take(i as int), sizes),
            total == sum_of(sizes),
        decreases items.len() - i,
    {
        let item: &T = items[i];
        assert(all[i as int] == *item);
        proof {
            assert forall|n: nat| #[trigger] item.is_extra_size(n) implies size_of::<T>() + n
                <= usize::MAX by {
                lemma_prefix_total_bounded(
                    all,
                    sizes,
                    i as int,
                    (size_of::<T>() + n) as nat,
                    unused,
                    usize::MAX as int,
                );
            }
        }
        let g = item.get_size();
        proof {
            lemma_prefix_total_bounded(all, sizes, i as int, g as nat, unused, usize::MAX as int);
            lemma_sum_push(sizes, g as nat);
        }
        total = total + g;
        proof {
            let next = sizes.push(g as nat);
            assert forall|j: int| 0 <= j < i + 1 implies #[trigger] is_total_size(
                &all.take(i + 1)[j],
                next[j],
            ) by {
                if j < i {
                    assert(all.take(i as int)[j] == all.take(i + 1)[j]);
                    assert(is_total_size(&all.take(i as int)[j], sizes[j]));
                }
            }
            sizes = next;
        }
        i = i + 1;
    }
    assert(all.take(i as int) =~= all);
    let free = (capacity - len) * core::mem::size_of::<T>();
    total + free
}

/// `n` is an extra size that a contiguous buffer holding `items` may report: the total sizes of
/// the items plus `size_of::<T>()` for every unused slot of a capacity of at least the length,
/// the unused slots fitting in one allocation.
pub open spec fn is_contiguous_extra_size<T: TypeSize>(items: Seq<T>, n: nat) -> bool {
    exists|capacity: nat|
        unused_fits(capacity as int, items.len() as int, size_of::<T>() as int)
            && #[trigger] is_buffer_extra_size(items, capacity as int, items.len() as int, n)
}

/// The extra size of a contiguous buffer of `capacity` slots holding the values behind `refs`.
fn contiguous_extra_size<T: TypeSize>(refs: &Vec<&T>, capacity: usize) -> (r: usize)
    requires
        capacity >= refs@.len(),
        capacity * size_of::<T>() <= isize::MAX,
        forall|n: nat| #[trigger]
            is_contiguous_extra_size(deref_all(refs@), n) ==> n <= usize::MAX,
    ensures
        is_contiguous_extra_size(deref_all(refs@), r as nat),
{
    let ghost items = deref_all(refs@);
    let len = refs.len();
    proof {
        lemma_unused_fits(capacity as int, len as int, size_of::<T>() as int);
        assert forall|s: Seq<nat>| #[trigger]
            are_total_sizes(items, s) implies sum_of(s) + (capacity - len) * size_of::<T>()
            <= usize::MAX by {
            let n = (sum_of(s) + (capacity - len) * size_of::<T>()) as nat;
            assert(is_buffer_extra_size(items, capacity as int, len as int, n));
            assert(is_contiguous_extra_size(items, n));
        }
    }
    let r = generic_vec_extra_size(refs.as_slice(), capacity, len);
    assert(is_buffer_extra_size(items, capacity as int, len as int, r as nat));
    r
}

impl<T: TypeSize> TypeSize for Vec<T> {
    /// The estimate of a contiguous buffer: see [`is_contiguous_extra_size`].
    open spec fn is_extra_size(&self, n: nat) -> bool {
        is_contiguous_extra_size(self@, n)
    }

    open spec fn is_item_count(&self, c: Option<usize>) -> bool {
        c == Some(self@.len() as usize)
    }

    fn extra_size(&self) -> (r: usize) {
        let capacity = vec_capacity(self);
        let mut refs: Vec<&T> = Vec::new();
        let mut i: usize = 0;
        while i < self.len()
            invariant
                i <= self@.len(),
                deref_all(refs@) =~= self@.take(i as int),
            decreases self@.len() - i,
        {
            let item: &T = &self[i];
            let ghost before = refs@;
            refs.push(item);
            proof {
                lemma_deref_all_push(before, item);
                assert(self@.take(i as int).push(self@[i as int]) =~= self@.take(i + 1));
            }
            i = i + 1;
        }
        assert(deref_all(refs@) =~= self@);
        proof {
            assert forall|n: nat| #[trigger] is_contiguous_extra_size(deref_all(refs@), n) implies n
                <= usize::MAX by {
                assert(self.is_extra_size(n));
            }
        }
        contiguous_extra_size(&refs, capacity)
    }

    fn get_collection_item_count(&self) -> (r: Option<usize>) {
        Some(self.len())
    }

    fn get_size_details(&self) -> (r: Vec<Field>) {
        Vec::new()
    }
}

} // verus!

verus! {

impl<T: TypeSize> TypeSize for VecDeque<T> {
    /// The estimate of a contiguous buffer: see [`is_contiguous_extra_size`].
    open spec fn is_extra_size(&self, n: nat) -> bool {
        is_contiguous_extra_size(self@, n)
    }

    open spec fn is_item_count(&self, c: Option<usize>) -> bool {
        c == Some(self@.len() as usize)
    }

    fn extra_size(&self) -> (r: usize) {
        broadcast use vstd::std_specs::vecdeque::group_vec_dequeue_axioms;

        let capacity = vec_deque_capacity(self);
        let mut refs: Vec<&T> = Vec::new();
        let mut i: usize = 0;
        while i < self.len()
            invariant
                i <= self@.len(),
                deref_all(refs@) =~= self@.take(i as int),
            decreases self@.len() - i,
        {
            let item: &T = &self[i];
            let ghost before = refs@;
            refs.push(item);
            proof {
                lemma_deref_all_push(before, item);
                assert(self@.take(i as int).push(self@[i as int]) =~= self@.take(i + 1));
            }
            i = i + 1;
        }
        assert(deref_all(refs@) =~= self@);
        proof {
            assert forall|n: nat| #[trigger] is_contiguous_extra_size(deref_all(refs@), n) implies n
                <= usize::MAX by {
                assert(self.is_extra_size(n));
            }
        }
        contiguous_extra_size(&refs, capacity)
    }

    fn get_collection_item_count(&self) -> (r: Option<usize>) {
        broadcast use vstd::std_specs::vecdeque::group_vec_dequeue_axioms;

        Some(self.len())
    }

    fn get_size_details(&self) -> (r: Vec<Field>) {
        Vec::new()
    }
}

/// `n` is an extra size that a string holding the characters `s` may report: one byte for every
/// byte of a capacity that is at least the length in bytes, the unused bytes fitting in one
/// allocation.
pub open spec fn string_reports(s: Seq<char>, n: nat) -> bool {
    exists|capacity: nat|
        unused_fits(capacity as int, encode_utf8(s).len() as int, 1) && n == #[trigger] (size_of::<
            u8,
        >() * capacity)
}

/// Every string reports at least one extra size: that of a capacity equal to its length.
pub proof fn lemma_string_reports_exist(s: Seq<char>)
    ensures
        string_reports(s, (size_of::<u8>() * encode_utf8(s).len()) as nat),
{
    let capacity = encode_utf8(s).len();
    assert(unused_fits(capacity as int, capacity as int, 1));
    assert(size_of::<u8>() * capacity >= 0) by (nonlinear_arith);
}

impl TypeSize for String {
    /// One byte for every byte of the capacity, which is at least the length in bytes; the
    /// unused bytes fit in one allocation.
    open spec fn is_extra_size(&self, n: nat) -> bool {
        string_reports(self@, n)
    }

    open spec fn is_item_count(&self, c: Option<usize>) -> bool {
        c == Some(encode_utf8(self@).len() as usize)
    }

    fn extra_size(&self) -> (r: usize) {
        let capacity = string_capacity(self);
        assert(self.is_extra_size(size_of::<u8>() * (capacity as nat)));
        core::mem::size_of::<u8>() * capacity
    }

    fn get_collection_item_count(&self) -> (r: Option<usize>) {
        Some(self.as_str().len())
    }

    fn get_size_details(&self) -> (r: Vec<Field>) {
        Vec::new()
    }
}

} // verus!
