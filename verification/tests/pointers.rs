use std::rc::Rc;
use std::sync::Arc;

use typesize::ptr::{Borrowed, Owned, Ref, RefMut, SizableArc, SizableRc};
use typesize::with::{
    arc_size_with_inner, arc_size_without_inner, rc_size_with_inner, rc_size_without_inner,
    ref_mut_size, ref_size,
};
use typesize::TypeSize;

#[test]
fn sizable_rc_counts_the_value_only_when_owned() {
    let rc = Rc::new(0_u8);
    let rc_borrow: SizableRc<u8, Borrowed> = rc.clone().into();
    let rc_owner: SizableRc<u8, Owned> = rc.into();

    // Just counts the pointer to the internal `RcBox`.
    assert_eq!(rc_borrow.get_size(), 0_usize.get_size());
    // Counts the pointer to the `RcBox`, plus the two Cells, and the value.
    assert_eq!(
        rc_owner.get_size(),
        0_usize.get_size() + (std::mem::size_of::<usize>() * 2) + 0_u8.get_size()
    );
    assert_eq!(**rc_owner, 0);
}

#[test]
fn sizable_arc_counts_the_value_only_when_owned() {
    let arc = Arc::new(vec![1_u32, 2]);
    let capacity = arc.capacity();
    let arc_borrow: SizableArc<Vec<u32>, Borrowed> = arc.clone().into();
    let arc_owner: SizableArc<Vec<u32>, Owned> = arc.into();

    assert_eq!(arc_borrow.extra_size(), 0);
    assert_eq!(
        arc_owner.extra_size(),
        core::mem::size_of::<Vec<u32>>() + capacity * 4 + std::mem::size_of::<usize>() * 2
    );
    assert_eq!(arc_owner.get_collection_item_count(), Some(2));
    assert_eq!(arc_owner.len(), 2);
}

#[test]
fn reference_wrappers_count_only_the_pointer() {
    let value = vec![1_u8, 2, 3];
    let shared = Ref(&value);
    assert_eq!(shared.get_size(), core::mem::size_of::<&Vec<u8>>());
    assert_eq!(shared.len(), 3);
    let mut other = vec![4_u8];
    let unique = RefMut(&mut other);
    assert_eq!(unique.extra_size(), 0);
    assert_eq!(unique.len(), 1);
}

#[test]
fn pointer_metadata_sizes_are_zero() {
    let value = String::from("abc");
    assert_eq!(ref_size(&&value), 0);
    let mut other = 3_u64;
    assert_eq!(ref_mut_size(&&mut other), 0);
    assert_eq!(rc_size_without_inner(&Rc::new(value.clone())), 0);
    assert_eq!(arc_size_without_inner(&Arc::new(value)), 0);
}

#[test]
fn counted_pointers_with_their_value() {
    let rc = Rc::new(String::with_capacity(10));
    let capacity = rc.capacity();
    assert_eq!(
        rc_size_with_inner(&rc),
        core::mem::size_of::<String>() + capacity + 2 * core::mem::size_of::<usize>()
    );
    let arc = Arc::new(String::with_capacity(5));
    let capacity = arc.capacity();
    assert_eq!(
        arc_size_with_inner(&arc),
        core::mem::size_of::<String>() + capacity + 2 * core::mem::size_of::<usize>()
    );
    assert_eq!(arc_size_with_inner(&Arc::new(0_u8)), 1 + 2 * core::mem::size_of::<usize>());
    let owned: SizableArc<String, Owned> = arc.clone().into();
    assert_eq!(owned.extra_size(), arc_size_with_inner(&arc));
    assert_eq!(
        arc_size_with_inner(&Arc::new(7_u32)),
        rc_size_with_inner(&Rc::new(7_u32))
    );
}
