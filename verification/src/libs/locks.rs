//! Locks of `parking_lot` and `dashmap`: a lock reports what the value it guards reports.
//!
//! The guarded value can change behind a shared reference, so Verus sees a lock only as an
//! identity: the contracts state what holds for whatever value the lock guards when it is read.
//! A lock that another holder keeps is not waited for; it reports nothing.
use vstd::prelude::*;

use crate::{Field, TypeSize};

verus! {

/// `lock_api::Mutex`, the type behind `parking_lot::Mutex`, carried as an opaque value.
#[verifier::external_type_specification]
#[verifier::external_body]
#[verifier::reject_recursive_types(R)]
#[verifier::reject_recursive_types(T)]
pub struct ExLockMutex<R, T: ?Sized>(::parking_lot::lock_api::Mutex<R, T>);

/// `lock_api::RwLock`, the type behind `parking_lot::RwLock` and `dashmap::RwLock`, carried as
/// an opaque value.
#[verifier::external_type_specification]
#[verifier::external_body]
#[verifier::reject_recursive_types(R)]
#[verifier::reject_recursive_types(T)]
pub struct ExLockRwLock<R, T: ?Sized>(::parking_lot::lock_api::RwLock<R, T>);

/// `parking_lot::RawMutex`, carried as an opaque value.
#[verifier::external_type_specification]
#[verifier::external_body]
pub struct ExRawMutex(::parking_lot::RawMutex);

/// `parking_lot::RawRwLock`, carried as an opaque value.
#[verifier::external_type_specification]
#[verifier::external_body]
pub struct ExRawRwLock(::parking_lot::RawRwLock);

/// `dashmap::RawRwLock`, carried as an opaque value.
#[verifier::external_type_specification]
#[verifier::external_body]
pub struct ExDashRawRwLock(::dashmap::RawRwLock);

/// `Mutex::try_lock`: while the lock is free, hands the guarded value to `f` and gives back what
/// `f` returns; `None` while another holder keeps the lock. Which happens, and which value `f`
/// is given, is not stated: neither is part of the lock as Verus sees it.
#[verifier::external_body]
fn mutex_try_with<T, S, F: Fn(&T) -> S>(m: &::parking_lot::Mutex<T>, f: F) -> (r: Option<S>)
    requires
        forall|v: &T| #[trigger] f.requires((v,)),
    ensures
        r matches Some(s) ==> exists|v: &T| #[trigger] f.ensures((v,), s),
{
    m.try_lock().map(|guard| f(&*guard))
}

/// `RwLock::try_read` of `parking_lot`: while no writer holds the lock, hands the guarded value
/// to `f` and gives back what `f` returns; `None` while a writer holds it. Which happens, and
/// which value `f` is given, is not stated.
#[verifier::external_body]
fn rwlock_try_with<T, S, F: Fn(&T) -> S>(l: &::parking_lot::RwLock<T>, f: F) -> (r: Option<S>)
    requires
        forall|v: &T| #[trigger] f.requires((v,)),
    ensures
        r matches Some(s) ==> exists|v: &T| #[trigger] f.ensures((v,), s),
{
    l.try_read().map(|guard| f(&*guard))
}

/// `RwLock::try_read` of `dashmap`: as for `parking_lot`'s.
#[verifier::external_body]
fn dash_rwlock_try_with<T, S, F: Fn(&T) -> S>(l: &::dashmap::RwLock<T>, f: F) -> (r: Option<S>)
    requires
        forall|v: &T| #[trigger] f.requires((v,)),
    ensures
        r matches Some(s) ==> exists|v: &T| #[trigger] f.ensures((v,), s),
{
    l.try_read().map(|guard| f(&*guard))
}

/// What some value of `T` may report, or nothing.
pub open spec fn guarded_extra_size<T: TypeSize>(n: nat) -> bool {
    n == 0 || exists|v: T| #[trigger] v.is_extra_size(n)
}

/// The extra size of a guarded value.
fn value_extra_size<T: TypeSize>(v: &T) -> (r: usize)
    requires
        forall|x: T, n: nat| #[trigger] x.is_extra_size(n) ==> n <= usize::MAX,
    ensures
        v.is_extra_size(r as nat),
{
    v.extra_size()
}

/// The item count of a guarded value.
fn value_item_count<T: TypeSize>(v: &T) -> (r: Option<usize>)
    ensures
        v.is_item_count(r),
{
    v.get_collection_item_count()
}

/// The field breakdown of a guarded value.
fn value_size_details<T: TypeSize>(v: &T) -> (r: Vec<Field>)
    requires
        forall|x: T, n: nat| #[trigger] x.is_extra_size(n) ==> n <= usize::MAX,
    ensures
        v.is_size_details(r@),
{
    v.get_size_details()
}

impl<T: TypeSize> TypeSize for ::parking_lot::Mutex<T> {
    /// What some value of `T` may report; nothing while another holder keeps the lock.
    open spec fn is_extra_size(&self, n: nat) -> bool {
        guarded_extra_size::<T>(n)
    }

    open spec fn is_item_count(&self, c: Option<usize>) -> bool {
        c is None || exists|v: T| #[trigger] v.is_item_count(c)
    }

    open spec fn is_size_details(&self, d: Seq<Field>) -> bool {
        d.len() == 0 || exists|v: T| #[trigger] v.is_size_details(d)
    }

    fn extra_size(&self) -> (r: usize) {
        proof {
            assert forall|x: T, n: nat| #[trigger] x.is_extra_size(n) implies n <= usize::MAX by {
                assert(self.is_extra_size(n));
            }
        }
        match mutex_try_with(self, |v: &T| -> (r: usize)
            requires
                forall|x: T, n: nat| #[trigger] x.is_extra_size(n) ==> n <= usize::MAX,
            ensures
                v.is_extra_size(r as nat),
            { value_extra_size(v) }) {
            Some(n) => n,
            None => 0,
        }
    }

    fn get_collection_item_count(&self) -> (r: Option<usize>) {
        match mutex_try_with(self, |v: &T| -> (r: Option<usize>)
            ensures
                v.is_item_count(r),
            { value_item_count(v) }) {
            Some(c) => c,
            None => None,
        }
    }

    fn get_size_details(&self) -> (r: Vec<Field>) {
        proof {
            assert forall|x: T, n: nat| #[trigger] x.is_extra_size(n) implies n <= usize::MAX by {
                assert(self.is_extra_size(n));
            }
        }
        match mutex_try_with(self, |v: &T| -> (r: Vec<Field>)
            requires
                forall|x: T, n: nat| #[trigger] x.is_extra_size(n) ==> n <= usize::MAX,
            ensures
                v.is_size_details(r@),
            { value_size_details(v) }) {
            Some(d) => d,
            None => Vec::new(),
        }
    }
}

impl<T: TypeSize> TypeSize for ::parking_lot::RwLock<T> {
    /// What some value of `T` may report; nothing while a writer holds the lock.
    open spec fn is_extra_size(&self, n: nat) -> bool {
        guarded_extra_size::<T>(n)
    }

    open spec fn is_item_count(&self, c: Option<usize>) -> bool {
        c is None || exists|v: T| #[trigger] v.is_item_count(c)
    }

    open spec fn is_size_details(&self, d: Seq<Field>) -> bool {
        d.len() == 0 || exists|v: T| #[trigger] v.is_size_details(d)
    }

    fn extra_size(&self) -> (r: usize) {
        proof {
            assert forall|x: T, n: nat| #[trigger] x.is_extra_size(n) implies n <= usize::MAX by {
                assert(self.is_extra_size(n));
            }
        }
        match rwlock_try_with(self, |v: &T| -> (r: usize)
            requires
                forall|x: T, n: nat| #[trigger] x.is_extra_size(n) ==> n <= usize::MAX,
            ensures
                v.is_extra_size(r as nat),
            { value_extra_size(v) }) {
            Some(n) => n,
            None => 0,
        }
    }

    fn get_collection_item_count(&self) -> (r: Option<usize>) {
        match rwlock_try_with(self, |v: &T| -> (r: Option<usize>)
            ensures
                v.is_item_count(r),
            { value_item_count(v) }) {
            Some(c) => c,
            None => None,
        }
    }

    fn get_size_details(&self) -> (r: Vec<Field>) {
        proof {
            assert forall|x: T, n: nat| #[trigger] x.is_extra_size(n) implies n <= usize::MAX by {
                assert(self.is_extra_size(n));
            }
        }
        match rwlock_try_with(self, |v: &T| -> (r: Vec<Field>)
            requires
                forall|x: T, n: nat| #[trigger] x.is_extra_size(n) ==> n <= usize::MAX,
            ensures
                v.is_size_details(r@),
            { value_size_details(v) }) {
            Some(d) => d,
            None => Vec::new(),
        }
    }
}

impl<T: TypeSize> TypeSize for ::dashmap::RwLock<T> {
    /// What some value of `T` may report; nothing while a writer holds the lock.
    open spec fn is_extra_size(&self, n: nat) -> bool {
        guarded_extra_size::<T>(n)
    }

    fn extra_size(&self) -> (r: usize) {
        proof {
            assert forall|x: T, n: nat| #[trigger] x.is_extra_size(n) implies n <= usize::MAX by {
                assert(self.is_extra_size(n));
            }
        }
        match dash_rwlock_try_with(self, |v: &T| -> (r: usize)
            requires
                forall|x: T, n: nat| #[trigger] x.is_extra_size(n) ==> n <= usize::MAX,
            ensures
                v.is_extra_size(r as nat),
            { value_extra_size(v) }) {
            Some(n) => n,
            None => 0,
        }
    }

    fn get_collection_item_count(&self) -> (r: Option<usize>) {
        None
    }

    fn get_size_details(&self) -> (r: Vec<Field>) {
        Vec::new()
    }
}

} // verus!
