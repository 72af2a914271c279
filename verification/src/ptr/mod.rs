//! Wrappers around pointer and reference types that implement [`TypeSize`].
use vstd::prelude::*;

use crate::{Field, TypeSize};

pub use self::arc::SizableArc;
pub use self::rc::SizableRc;

mod arc;
mod rc;

verus! {

/// A wrapper around `&'a T` to implement [`TypeSize`].
///
/// This does not consider the size of the inner `T`, simply the size of the pointer.
#[derive(Clone, Copy, PartialEq, Eq, PartialOrd, Ord, Hash)]
pub struct Ref<'a, T: ?Sized>(pub &'a T);

/// A wrapper around `&'a mut T` to implement [`TypeSize`].
///
/// This does not consider the size of the inner `T`, simply the size of the pointer.
#[derive(PartialEq, Eq, PartialOrd, Ord, Hash)]
pub struct RefMut<'a, T: ?Sized>(pub &'a mut T);

impl<'a, T: ?Sized> TypeSize for Ref<'a, T> {
    fn extra_size(&self) -> (r: usize) {
        0
    }

    fn get_collection_item_count(&self) -> (r: Option<usize>) {
        None
    }

    fn get_size_details(&self) -> (r: Vec<Field>) {
        Vec::new()
    }
}

impl<'a, T: ?Sized> TypeSize for RefMut<'a, T> {
    fn extra_size(&self) -> (r: usize) {
        0
    }

    fn get_collection_item_count(&self) -> (r: Option<usize>) {
        None
    }

    fn get_size_details(&self) -> (r: Vec<Field>) {
        Vec::new()
    }
}

impl<'a, T: ?Sized> core::ops::Deref for Ref<'a, T> {
    type Target = T;

    fn deref(&self) -> (r: &T)
        ensures
            r == self.0,
    {
        self.0
    }
}

impl<'a, T: ?Sized> core::ops::Deref for RefMut<'a, T> {
    type Target = T;

    fn deref(&self) -> (r: &T)
        ensures
            r == &*old(self.0),
    {
        self.0
    }
}

/// Chooses whether a reference-counted wrapper counts the value it points to.
pub trait ShouldCountInner {}

/// Marker type for reference counted types such as [`SizableRc`] or [`SizableArc`]: only the
/// pointer is counted.
pub struct Borrowed;

/// Marker type for reference counted types such as [`SizableRc`] or [`SizableArc`]: the pointer,
/// the reference counts and the value are counted.
pub struct Owned;

impl ShouldCountInner for Borrowed {}

impl ShouldCountInner for Owned {}

} // verus!
