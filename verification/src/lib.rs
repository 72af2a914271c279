//! # Typesize
//!
//! A library to fetch an accurate estimate of the total memory usage of a value.
//!
//! The goal of this library is to produce the most accurate estimate possible, however without being
//! deeply integrated into the entire ecosystem this cannot be possible. The real goal is to get
//! "close enough" for getting a sense of memory usage in a program.
//!
//! Types that perform their own heap allocation implement [`TypeSize`] and override
//! [`TypeSize::extra_size`]; every other type reports only its [`core::mem::size_of`].
//!
//! Every size reported here is specified in terms of what a value *may* report: some quantities
//! that the sizes depend on, such as the capacity that an allocator handed to a `Vec`, are not
//! determined by the value's contents, so each contract states the set of sizes that the
//! computation can produce, and pins the result down exactly wherever the contents determine it.
#![allow(unused_imports)]

use vstd::prelude::*;
use vstd::layout::size_of;

pub mod sizes;
mod primitives;
pub mod vec;
mod boxed;
mod enums;
pub mod cell;
mod hash;
mod time;
pub mod libs;
pub mod derive;
pub mod ptr;
pub mod with;
pub mod map;
pub mod laws;
mod set;
pub use crate::ptr::{Ref, RefMut};
pub use crate::sizes::is_total_size;

verus! {

/// A trait to fetch an accurate estimate of the total memory usage of a value.
///
/// Each implementation describes, through the spec functions below, which results its methods
/// may produce; the executable methods are verified against those descriptions.
pub trait TypeSize: Sized {
    /// Holds when `n` is a number of bytes, beyond `size_of::<Self>()`, that this value may report
    /// as held behind its allocations; by default only `0`, for a value that allocates nothing.
    open spec fn is_extra_size(&self, n: nat) -> bool {
        n == 0
    }

    /// Holds when `c` is an item count that this value may report; by default only `None`, for a
    /// value that is not a collection.
    open spec fn is_item_count(&self, c: Option<usize>) -> bool {
        c is None
    }

    /// Holds when `d` is a field breakdown that this value may report; by default, an empty one.
    open spec fn is_size_details(&self, d: Seq<Field>) -> bool {
        d.len() == 0
    }

    /// The number of bytes more than the [`core::mem::size_of`] that this value is using.
    fn extra_size(&self) -> (r: usize)
        requires
            forall|n: nat| #[trigger] self.is_extra_size(n) ==> n <= usize::MAX,
        ensures
            self.is_extra_size(r as nat),
    ;

    /// The total number of bytes that this type is using, both direct
    /// ([`core::mem::size_of`]) and indirect (behind allocations).
    ///
    /// There's no reason to ever override this method.
    fn get_size(&self) -> (r: usize)
        requires
            forall|n: nat| #[trigger] self.is_extra_size(n) ==> size_of::<Self>() + n <= usize::MAX,
        ensures
            r >= size_of::<Self>(),
            self.is_extra_size((r - size_of::<Self>()) as nat),
    {
        let extra = self.extra_size();
        core::mem::size_of::<Self>() + extra
    }

    /// Returns information about the number of items this type is holding, if it is a collection.
    fn get_collection_item_count(&self) -> (r: Option<usize>)
        ensures
            self.is_item_count(r),
    ;

    /// Returns detailed information about the current value's field sizes.
    fn get_size_details(&self) -> (r: Vec<Field>)
        requires
            forall|n: nat| #[trigger] self.is_extra_size(n) ==> n <= usize::MAX,
        ensures
            self.is_size_details(r@),
    ;
}

/// A description of a struct or enum field.
#[derive(Clone, Copy, Debug, PartialEq, Eq, PartialOrd, Ord)]
pub struct Field {
    /// The name of the field being described.
    pub name: &'static str,
    /// The total size of the field.
    pub size: usize,
    /// How many items this collection is holding, if it is one.
    pub collection_items: Option<usize>,
}

} // verus!
