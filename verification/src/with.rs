//! Sizes of pointer-like values, to use on fields that hold them.
use std::rc::Rc;
use std::sync::Arc;
use vstd::prelude::*;
use vstd::layout::size_of;

use crate::TypeSize;

verus! {

/// `Rc::strong_count`; the count depends on every other clone of the pointer, so nothing is
/// stated of it.
#[verifier::external_body]
fn rc_strong_count<T>(val: &Rc<T>) -> usize {
    Rc::strong_count(val)
}

/// `Rc::weak_count`; the count depends on every other weak pointer, so nothing is stated of it.
#[verifier::external_body]
fn rc_weak_count<T>(val: &Rc<T>) -> usize {
    Rc::weak_count(val)
}

/// `Arc::strong_count`; the count depends on every other clone of the pointer, so nothing is
/// stated of it.
#[verifier::external_body]
fn arc_strong_count<T>(val: &Arc<T>) -> usize {
    Arc::strong_count(val)
}

/// `Arc::weak_count`; the count depends on every other weak pointer, so nothing is stated of it.
#[verifier::external_body]
fn arc_weak_count<T>(val: &Arc<T>) -> usize {
    Arc::weak_count(val)
}

/// `n` is a size that a reference-counted pointer to `inner` may report when it counts the value:
/// the total size of the value plus the sizes of the strong and weak counts.
pub open spec fn is_counted_size<T: TypeSize>(inner: &T, n: nat) -> bool {
    n >= size_of::<T>() + 2 * size_of::<usize>() && inner.is_extra_size(
        (n - size_of::<T>() - 2 * size_of::<usize>()) as nat,
    )
}

/// Returns the extra size from the pointer/metadata part of a reference.
/// This does not consider the inner `T`'s size, and therefore is always `0`.
pub fn ref_size<T: ?Sized>(_val: &&T) -> (r: usize)
    ensures
        r == 0,
{
    0
}

/// Returns the extra size from the pointer/metadata part of a mutable reference.
/// This does not consider the inner `T`'s size, and therefore is always `0`.
pub fn ref_mut_size<T: ?Sized>(_val: &&mut T) -> (r: usize)
    ensures
        r == 0,
{
    0
}

/// Returns the extra size from the pointer/metadata part of a Rc.
/// This does not consider the inner `T`'s size, and therefore is always `0`.
pub fn rc_size_without_inner<T: ?Sized>(_val: &Rc<T>) -> (r: usize)
    ensures
        r == 0,
{
    0
}

/// Returns the extra size from the pointer/metadata part of an Arc.
/// This does not consider the inner `T`'s size, and therefore is always `0`.
pub fn arc_size_without_inner<T: ?Sized>(_val: &Arc<T>) -> (r: usize)
    ensures
        r == 0,
{
    0
}

/// Returns the extra size of an `Rc<T>`, assuming that this is the only copy: the total size of
/// the value plus the sizes of the strong and weak counts.
pub fn rc_size_with_inner<T: TypeSize>(val: &Rc<T>) -> (r: usize)
    requires
        forall|e: nat| #[trigger]
            (**val).is_extra_size(e) ==> size_of::<T>() + e + 2 * size_of::<usize>() <= usize::MAX,
    ensures
        is_counted_size(&**val, r as nat),
{
    let inner: &T = &**val;
    let size = inner.get_size();
    let strong = rc_strong_count(val).get_size();
    let weak = rc_weak_count(val).get_size();
    size + strong + weak
}

/// Returns the extra size of an `Arc<T>`, assuming that this is the only copy: the total size of
/// the value plus the sizes of the strong and weak counts.
///
/// Use [`arc_size_without_inner`] to avoid counting the copies.
pub fn arc_size_with_inner<T: TypeSize>(val: &Arc<T>) -> (r: usize)
    requires
        forall|e: nat| #[trigger]
            (**val).is_extra_size(e) ==> size_of::<T>() + e + 2 * size_of::<usize>() <= usize::MAX,
    ensures
        is_counted_size(&**val, r as nat),
{
    let inner: &T = &**val;
    let size = inner.get_size();
    let strong = arc_strong_count(val).get_size();
    let weak = arc_weak_count(val).get_size();
    size + strong + weak
}

} // verus!
