//! Interior mutability: `Cell`, `RefCell` and `OnceCell`.
//!
//! What these cells hold can change behind a shared reference, so Verus sees a cell only as an
//! identity: their contracts state what holds for whatever value the cell holds when it is read.
use core::cell::{Cell, OnceCell, RefCell};
use vstd::prelude::*;
use vstd::pervasive::arbitrary;

use crate::{Field, TypeSize};

verus! {

/// `core::cell::Cell`, carried as an opaque value.
#[verifier::external_type_specification]
#[verifier::external_body]
#[verifier::reject_recursive_types(T)]
pub struct ExCell<T: ?Sized>(Cell<T>);

/// `core::cell::RefCell`, carried as an opaque value.
#[verifier::external_type_specification]
#[verifier::external_body]
#[verifier::reject_recursive_types(T)]
pub struct ExRefCell<T: ?Sized>(RefCell<T>);

/// `core::cell::Ref`, the guard of a shared borrow of a `RefCell`, carried as an opaque value.
#[verifier::external_type_specification]
#[verifier::external_body]
#[verifier::reject_recursive_types(T)]
pub struct ExCellRef<'b, T: ?Sized>(core::cell::Ref<'b, T>);

/// `core::cell::OnceCell`, carried as an opaque value.
#[verifier::external_type_specification]
#[verifier::external_body]
#[verifier::reject_recursive_types(T)]
pub struct ExOnceCell<T>(OnceCell<T>);

/// `Cell::get`: a copy of the value that the cell holds at the time of the call, which nothing
/// ties to the cell's identity, so nothing is stated of it.
#[verifier::external_body]
fn cell_get<T: Copy>(cell: &Cell<T>) -> T {
    cell.get()
}

/// `RefCell::try_borrow`: a guard through which the value that the cell holds can be read, or
/// `None` where the cell is mutably borrowed. The borrow state is not part of the cell's value
/// as Verus sees it, so nothing is stated of which comes out.
#[verifier::external_body]
fn ref_cell_try_borrow<T>(cell: &RefCell<T>) -> Option<core::cell::Ref<'_, T>> {
    cell.try_borrow().ok()
}

/// `Deref::deref` of a `RefCell` borrow guard: the value that the cell holds, of which nothing
/// is stated.
#[verifier::external_body]
fn cell_ref_deref<'a, 'b, T>(guard: &'a core::cell::Ref<'b, T>) -> &'a T {
    &**guard
}

/// `OnceCell::get`: the value if the cell was initialised, which nothing ties to the cell's
/// identity, so nothing is stated of it.
#[verifier::external_body]
fn once_cell_get<T>(cell: &OnceCell<T>) -> Option<&T> {
    cell.get()
}

impl<T: TypeSize + Copy> TypeSize for Cell<T> {
    /// What some value of `T` may report.
    open spec fn is_extra_size(&self, n: nat) -> bool {
        exists|v: T| v.is_extra_size(n)
    }

    open spec fn is_item_count(&self, c: Option<usize>) -> bool {
        exists|v: T| v.is_item_count(c)
    }

    open spec fn is_size_details(&self, d: Seq<Field>) -> bool {
        exists|v: T| v.is_size_details(d)
    }

    fn extra_size(&self) -> (r: usize) {
        let value = cell_get(self);
        assert forall|n: nat| #[trigger] value.is_extra_size(n) implies n <= usize::MAX by {
            assert(self.is_extra_size(n));
        }
        value.extra_size()
    }

    fn get_collection_item_count(&self) -> (r: Option<usize>) {
        let value = cell_get(self);
        value.get_collection_item_count()
    }

    fn get_size_details(&self) -> (r: Vec<Field>) {
        let value = cell_get(self);
        assert forall|n: nat| #[trigger] value.is_extra_size(n) implies n <= usize::MAX by {
            assert(self.is_extra_size(n));
        }
        value.get_size_details()
    }
}

impl<T: TypeSize> TypeSize for RefCell<T> {
    /// What some value of `T` may report; nothing while the cell is mutably borrowed, when its
    /// value cannot be read.
    open spec fn is_extra_size(&self, n: nat) -> bool {
        n == 0 || exists|v: T| v.is_extra_size(n)
    }

    open spec fn is_item_count(&self, c: Option<usize>) -> bool {
        c is None || exists|v: T| v.is_item_count(c)
    }

    open spec fn is_size_details(&self, d: Seq<Field>) -> bool {
        d.len() == 0 || exists|v: T| v.is_size_details(d)
    }

    fn extra_size(&self) -> (r: usize) {
        match ref_cell_try_borrow(self) {
            Some(guard) => {
                let value = cell_ref_deref(&guard);
                assert forall|n: nat| #[trigger] value.is_extra_size(n) implies n <= usize::MAX by {
                    assert(self.is_extra_size(n));
                }
                value.extra_size()
            },
            None => 0,
        }
    }

    fn get_collection_item_count(&self) -> (r: Option<usize>) {
        match ref_cell_try_borrow(self) {
            Some(guard) => {
                let value = cell_ref_deref(&guard);
                value.get_collection_item_count()
            },
            None => None,
        }
    }

    fn get_size_details(&self) -> (r: Vec<Field>) {
        match ref_cell_try_borrow(self) {
            Some(guard) => {
                let value = cell_ref_deref(&guard);
                assert forall|n: nat| #[trigger] value.is_extra_size(n) implies n <= usize::MAX by {
                    assert(self.is_extra_size(n));
                }
                value.get_size_details()
            },
            None => Vec::new(),
        }
    }
}

/// The extra size of what a `OnceCell` holds, given what `OnceCell::get` returned for it:
/// nothing for an empty cell, else what the value reports.
pub fn once_cell_contents_extra_size<T: TypeSize>(value: Option<&T>) -> (r: usize)
    requires
        value matches Some(v) ==> forall|n: nat| #[trigger] v.is_extra_size(n) ==> n <= usize::MAX,
    ensures
        match value {
            Some(v) => v.is_extra_size(r as nat),
            None => r == 0,
        },
{
    match value {
        Some(v) => v.extra_size(),
        None => 0,
    }
}

/// The item count of what a `OnceCell` holds, given what `OnceCell::get` returned for it: none
/// for an empty cell, else what the value reports.
pub fn once_cell_contents_item_count<T: TypeSize>(value: Option<&T>) -> (r: Option<usize>)
    ensures
        match value {
            Some(v) => v.is_item_count(r),
            None => r is None,
        },
{
    match value {
        Some(v) => v.get_collection_item_count(),
        None => None,
    }
}

/// The field breakdown of what a `OnceCell` holds, given what `OnceCell::get` returned for it:
/// empty for an empty cell, else what the value reports.
pub fn once_cell_contents_size_details<T: TypeSize>(value: Option<&T>) -> (r: Vec<Field>)
    requires
        value matches Some(v) ==> forall|n: nat| #[trigger] v.is_extra_size(n) ==> n <= usize::MAX,
    ensures
        match value {
            Some(v) => v.is_size_details(r@),
            None => r@.len() == 0,
        },
{
    match value {
        Some(v) => v.get_size_details(),
        None => Vec::new(),
    }
}

impl<T: TypeSize> TypeSize for OnceCell<T> {
    /// Nothing while the cell is empty; what some value of `T` may report once it is set.
    open spec fn is_extra_size(&self, n: nat) -> bool {
        n == 0 || exists|v: T| v.is_extra_size(n)
    }

    open spec fn is_item_count(&self, c: Option<usize>) -> bool {
        c is None || exists|v: T| v.is_item_count(c)
    }

    open spec fn is_size_details(&self, d: Seq<Field>) -> bool {
        d.len() == 0 || exists|v: T| v.is_size_details(d)
    }

    fn extra_size(&self) -> (r: usize) {
        let value = once_cell_get(self);
        proof {
            if let Some(v) = value {
                assert forall|n: nat| #[trigger] v.is_extra_size(n) implies n <= usize::MAX by {
                    assert(self.is_extra_size(n));
                }
            }
        }
        once_cell_contents_extra_size(value)
    }

    fn get_collection_item_count(&self) -> (r: Option<usize>) {
        once_cell_contents_item_count(once_cell_get(self))
    }

    fn get_size_details(&self) -> (r: Vec<Field>) {
        let value = once_cell_get(self);
        proof {
            if let Some(v) = value {
                assert forall|n: nat| #[trigger] v.is_extra_size(n) implies n <= usize::MAX by {
                    assert(self.is_extra_size(n));
                }
            }
        }
        once_cell_contents_size_details(value)
    }
}

} // verus!
