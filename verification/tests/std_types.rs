use std::cell::{Cell, OnceCell, RefCell};
use std::collections::hash_map::{DefaultHasher, RandomState};
use std::collections::{HashMap, HashSet, VecDeque};
use std::hash::BuildHasherDefault;
use std::num::{Saturating, Wrapping};
use std::sync::atomic::{AtomicBool, AtomicU32};
use std::time::{Duration, Instant, SystemTime};

use typesize::TypeSize;

#[test]
fn plain_values_report_their_size_of() {
    assert_eq!(0_u8.get_size(), 1);
    assert_eq!(0_u64.get_size(), 8);
    assert_eq!(0_i128.get_size(), 16);
    assert_eq!(true.get_size(), 1);
    assert_eq!(().get_size(), 0);
    assert_eq!(0_usize.extra_size(), 0);
    assert_eq!(AtomicBool::new(true).get_size(), 1);
    assert_eq!(AtomicU32::new(7).get_size(), 4);
    assert_eq!(Wrapping(3_u16).get_size(), 2);
    assert_eq!(Saturating(3_i32).get_size(), 4);
    assert_eq!(Duration::from_secs(1).get_size(), core::mem::size_of::<Duration>());
    assert_eq!(Instant::now().get_size(), core::mem::size_of::<Instant>());
    assert_eq!(SystemTime::now().extra_size(), 0);
    assert_eq!(RandomState::new().extra_size(), 0);
    assert_eq!(DefaultHasher::new().extra_size(), 0);
    assert_eq!(BuildHasherDefault::<DefaultHasher>::default().extra_size(), 0);
    assert_eq!(5_u32.get_collection_item_count(), None);
    assert!(5_u32.get_size_details().is_empty());
}

#[test]
fn arrays_add_up_the_extra_sizes_of_their_elements() {
    let plain = [1_u32, 2, 3];
    assert_eq!(plain.extra_size(), 0);
    assert_eq!(plain.get_size(), 12);
    assert_eq!(plain.get_collection_item_count(), Some(3));

    let mut first = Vec::with_capacity(8);
    first.push(1_u8);
    let second: Vec<u8> = Vec::with_capacity(3);
    let expected = first.capacity() + second.capacity();
    let nested = [first, second];
    assert_eq!(nested.extra_size(), expected);
}

#[test]
fn vectors_count_every_slot_of_their_capacity() {
    let mut v: Vec<u32> = Vec::with_capacity(10);
    v.extend([1, 2, 3]);
    assert_eq!(v.extra_size(), v.capacity() * 4);
    assert_eq!(v.get_collection_item_count(), Some(3));

    let exact: Vec<u16> = vec![1, 2, 3, 4, 5];
    assert_eq!(exact.extra_size(), exact.capacity() * 2);

    let strings = vec![String::from("ab"), String::with_capacity(7)];
    let inner: usize = strings.iter().map(|s| s.get_size()).sum();
    assert_eq!(
        strings.extra_size(),
        inner + (strings.capacity() - strings.len()) * core::mem::size_of::<String>()
    );

    let empty: Vec<u64> = Vec::new();
    assert_eq!(empty.extra_size(), 0);
}

#[test]
fn deques_count_every_slot_of_their_capacity() {
    let mut d: VecDeque<u64> = VecDeque::with_capacity(6);
    d.push_back(1);
    d.push_front(2);
    assert_eq!(d.extra_size(), d.capacity() * 8);
    assert_eq!(d.get_collection_item_count(), Some(2));
}

#[test]
fn strings_count_their_capacity_in_bytes() {
    let mut s = String::with_capacity(32);
    s.push_str("héllo");
    assert_eq!(s.extra_size(), s.capacity());
    assert_eq!(s.get_collection_item_count(), Some(6));
    assert_eq!(String::new().extra_size(), 0);
}

#[test]
fn boxes_count_what_they_point_to() {
    let boxed = Box::new(vec![1_u8, 2, 3]);
    assert_eq!(
        boxed.extra_size(),
        core::mem::size_of::<Vec<u8>>() + boxed.capacity()
    );
    let slice: Box<[u16]> = vec![1, 2, 3].into_boxed_slice();
    assert_eq!(slice.extra_size(), 6);
    assert_eq!(slice.get_collection_item_count(), Some(3));
    let text: Box<str> = Box::from("naïve");
    assert_eq!(text.extra_size(), 6);
    assert_eq!(text.get_collection_item_count(), Some(6));
}

#[test]
fn options_report_their_contents() {
    let none: Option<Vec<u8>> = None;
    assert_eq!(none.extra_size(), 0);
    assert_eq!(none.get_collection_item_count(), None);
    let some = Some(vec![1_u8, 2]);
    let inner_extra = some.as_ref().unwrap().extra_size();
    assert_eq!(some.extra_size(), inner_extra);
    assert_eq!(some.get_size(), core::mem::size_of::<Option<Vec<u8>>>() + inner_extra);
    assert_eq!(some.get_collection_item_count(), Some(2));
}

#[test]
fn maps_count_every_slot_of_their_capacity() {
    let mut m: HashMap<u8, u32> = HashMap::with_capacity(5);
    m.insert(1, 10);
    m.insert(2, 20);
    assert_eq!(m.extra_size(), m.capacity() * (1 + 4));
    assert_eq!(m.get_collection_item_count(), Some(2));

    let mut owned: HashMap<u8, String> = HashMap::new();
    owned.insert(1, String::with_capacity(9));
    let entries: usize = owned.iter().map(|(k, v)| k.get_size() + v.get_size()).sum();
    assert_eq!(
        owned.extra_size(),
        entries + (owned.capacity() - owned.len()) * (1 + core::mem::size_of::<String>())
    );
}

#[test]
fn sets_count_every_slot_of_their_capacity() {
    let mut s: HashSet<u16> = HashSet::with_capacity(4);
    s.insert(3);
    s.insert(4);
    assert_eq!(s.extra_size(), s.capacity() * 2);
    assert_eq!(s.get_collection_item_count(), None);
}

#[test]
fn cells_report_what_they_hold() {
    let cell = Cell::new(5_u32);
    assert_eq!(cell.extra_size(), 0);
    assert_eq!(cell.get_size(), 4);

    let refcell = RefCell::new(Vec::<u8>::with_capacity(12));
    let expected = refcell.borrow().capacity();
    assert_eq!(refcell.extra_size(), expected);
    assert_eq!(refcell.get_collection_item_count(), Some(0));

    let once: OnceCell<Vec<u8>> = OnceCell::new();
    assert_eq!(once.extra_size(), 0);
    assert_eq!(once.get_collection_item_count(), None);
    once.set(vec![1, 2, 3]).unwrap();
    let expected = once.get().unwrap().capacity();
    assert_eq!(once.extra_size(), expected);
    assert_eq!(once.get_collection_item_count(), Some(3));
}

#[test]
fn once_cell_contents_are_sized_from_what_get_returned() {
    let v: Vec<u32> = Vec::with_capacity(6);
    let expected = v.capacity() * 4;
    assert_eq!(typesize::cell::once_cell_contents_extra_size(Some(&v)), expected);
    assert_eq!(typesize::cell::once_cell_contents_extra_size::<Vec<u32>>(None), 0);
    assert_eq!(typesize::cell::once_cell_contents_item_count(Some(&v)), Some(0));
    assert_eq!(typesize::cell::once_cell_contents_item_count::<Vec<u32>>(None), None);
    let empty: Vec<typesize::Field> = Vec::new();
    assert_eq!(typesize::cell::once_cell_contents_size_details(Some(&v)), empty);
    assert_eq!(typesize::cell::once_cell_contents_size_details::<Vec<u32>>(None), empty);
}

#[test]
fn mutably_borrowed_ref_cell_reports_nothing() {
    let refcell = RefCell::new(Vec::<u8>::with_capacity(12));
    let guard = refcell.borrow_mut();
    assert_eq!(refcell.extra_size(), 0);
    assert_eq!(refcell.get_collection_item_count(), None);
    assert!(refcell.get_size_details().is_empty());
    drop(guard);
    assert!(refcell.extra_size() >= 12);
}
