//! `halfbrown::SizedHashMap`: a map that holds its first entries inline in a vector and moves to
//! a hash table once it grows past a limit.
use vstd::prelude::*;
use vstd::layout::size_of;
use vstd::slice::slice_subrange;

use crate::map::{deref_pairs, generic_map_extra_size, is_table_extra_size, keys_of, values_of};
use crate::sizes::{
    are_extra_sizes, are_total_sizes, lemma_extra_sizes_exist, lemma_sum_append, lemma_sum_push,
    lemma_may_report_exists, lemma_total_sizes_exist, lemma_unused_fits, may_report, sum_of,
    unused_fits,
};
use crate::{Field, TypeSize};

verus! {

/// `halfbrown::SizedHashMap`, carried as an opaque value.
#[verifier::external_type_specification]
#[verifier::external_body]
#[verifier::reject_recursive_types(K)]
#[verifier::reject_recursive_types(V)]
#[verifier::reject_recursive_types(S)]
pub struct ExSizedHashMap<K, V, S, const N: usize>(::halfbrown::SizedHashMap<K, V, S, N>);

/// `n` is the sum of extra sizes that the keys and values of `entries` may report.
pub open spec fn is_entries_extra_size<K: TypeSize, V: TypeSize>(
    entries: Seq<(K, V)>,
    n: nat,
) -> bool {
    exists|ks: Seq<nat>, vs: Seq<nat>|
        #![trigger are_extra_sizes(keys_of(entries), ks), are_extra_sizes(values_of(entries), vs)]
        are_extra_sizes(keys_of(entries), ks) && are_extra_sizes(values_of(entries), vs) && n
            == sum_of(ks) + sum_of(vs)
}

/// `a - b`, or zero when `b` is larger.
pub open spec fn saturating_diff(a: nat, b: nat) -> nat {
    if a >= b {
        (a - b) as nat
    } else {
        0
    }
}

/// The number of leading entries that the estimate counts by their extra sizes alone.
pub open spec fn inline_count(len: nat, grow_limit: nat) -> nat {
    if len < grow_limit {
        len
    } else {
        grow_limit
    }
}

/// `n` is a size that a map of `length` entries `entries` with `capacity` slots may report: the
/// extra sizes of the first `grow_limit` entries, plus the table estimate of the rest with
/// `grow_limit` taken off both the capacity and the length.
pub open spec fn is_split_map_extra_size<K: TypeSize, V: TypeSize>(
    entries: Seq<(K, V)>,
    grow_limit: nat,
    capacity: nat,
    length: nat,
    n: nat,
) -> bool {
    let h = inline_count(entries.len(), grow_limit) as int;
    exists|a: nat, b: nat|
        #![trigger is_entries_extra_size(entries.take(h), a), is_table_extra_size(entries.skip(h), saturating_diff(capacity, grow_limit) as int, saturating_diff(length, grow_limit) as int, b)]
        n == a + b && is_entries_extra_size(entries.take(h), a) && is_table_extra_size(
            entries.skip(h),
            saturating_diff(capacity, grow_limit) as int,
            saturating_diff(length, grow_limit) as int,
            b,
        )
}

/// Any bound on every complete sum of extra sizes also bounds the sizes reported so far plus
/// those of the entry at `i`.
proof fn lemma_entry_extra_bounded<K: TypeSize, V: TypeSize>(
    entries: Seq<(K, V)>,
    kp: Seq<nat>,
    vp: Seq<nat>,
    i: int,
    ek: nat,
    ev: nat,
)
    requires
        0 <= i < entries.len(),
        are_extra_sizes(keys_of(entries).take(i), kp),
        are_extra_sizes(values_of(entries).take(i), vp),
        may_report(&entries[i].0, ek),
        may_report(&entries[i].1, ev),
        forall|a: nat| #[trigger] is_entries_extra_size(entries, a) ==> a <= usize::MAX,
    ensures
        sum_of(kp) + ek + sum_of(vp) + ev <= usize::MAX,
{
    let keys = keys_of(entries);
    let values = values_of(entries);
    lemma_extra_sizes_exist(keys.skip(i + 1));
    lemma_extra_sizes_exist(values.skip(i + 1));
    let kr = choose|r: Seq<nat>| #[trigger] are_extra_sizes(keys.skip(i + 1), r);
    let vr = choose|r: Seq<nat>| #[trigger] are_extra_sizes(values.skip(i + 1), r);
    let kw = kp.push(ek) + kr;
    let vw = vp.push(ev) + vr;
    assert forall|j: int| 0 <= j < keys.len() implies #[trigger] may_report(&keys[j], kw[j]) by {
        if j < i {
            assert(keys.take(i)[j] == keys[j]);
            assert(may_report(&keys.take(i)[j], kp[j]));
        } else if j > i {
            assert(keys.skip(i + 1)[j - i - 1] == keys[j]);
            assert(may_report(&keys.skip(i + 1)[j - i - 1], kr[j - i - 1]));
        }
    }
    assert forall|j: int| 0 <= j < values.len() implies #[trigger] may_report(&values[j],
        vw[j],
    ) by {
        if j < i {
            assert(values.take(i)[j] == values[j]);
            assert(may_report(&values.take(i)[j], vp[j]));
        } else if j > i {
            assert(values.skip(i + 1)[j - i - 1] == values[j]);
            assert(may_report(&values.skip(i + 1)[j - i - 1], vr[j - i - 1]));
        }
    }
    assert(are_extra_sizes(keys, kw));
    assert(are_extra_sizes(values, vw));
    lemma_sum_append(kp.push(ek), kr);
    lemma_sum_push(kp, ek);
    lemma_sum_append(vp.push(ev), vr);
    lemma_sum_push(vp, ev);
    assert(is_entries_extra_size(entries, sum_of(kw) + sum_of(vw)));
}

/// The sum of the extra sizes of the keys and values behind `elements`.
pub fn sum_entry_extra_sizes<K: TypeSize, V: TypeSize>(elements: &[(&K, &V)]) -> (r: usize)
    requires
        forall|a: nat| #[trigger] is_entries_extra_size(deref_pairs(elements@), a) ==> a <= usize::MAX,
    ensures
        is_entries_extra_size(deref_pairs(elements@), r as nat),
{
    let ghost entries = deref_pairs(elements@);
    let ghost keys = keys_of(entries);
    let ghost values = values_of(entries);
    let mut total: usize = 0;
    let ghost mut kp: Seq<nat> = Seq::empty();
    let ghost mut vp: Seq<nat> = Seq::empty();
    let mut i: usize = 0;
    while i < elements.len()
        invariant
            i <= elements@.len(),
            entries == deref_pairs(elements@),
            keys == keys_of(entries),
            values == values_of(entries),
            entries.len() == elements@.len(),
            keys.len() == entries.len(),
            values.len() == entries.len(),
            forall|a: nat| #[trigger] is_entries_extra_size(entries, a) ==> a <= usize::MAX,
            are_extra_sizes(keys.take(i as int), kp),
            are_extra_sizes(values.take(i as int), vp),
            total == sum_of(kp) + sum_of(vp),
        decreases elements@.len() - i,
    {
        let (key, value) = elements[i];
        assert(keys[i as int] == *key);
        assert(values[i as int] == *value);
        proof {
            assert forall|n: nat| #[trigger] key.is_extra_size(n) implies n <= usize::MAX by {
                lemma_may_report_exists(&values[i as int]);
                let e = choose|e: nat| may_report(&values[i as int], e);
                lemma_entry_extra_bounded(entries, kp, vp, i as int, n, e);
            }
            assert forall|n: nat| #[trigger] value.is_extra_size(n) implies n <= usize::MAX by {
                lemma_may_report_exists(&keys[i as int]);
                let e = choose|e: nat| may_report(&keys[i as int], e);
                lemma_entry_extra_bounded(entries, kp, vp, i as int, e, n);
            }
        }
        let ek = key.extra_size();
        let ev = value.extra_size();
        proof {
            lemma_entry_extra_bounded(entries, kp, vp, i as int, ek as nat, ev as nat);
            lemma_sum_push(kp, ek as nat);
            lemma_sum_push(vp, ev as nat);
        }
        total = total + ek + ev;
        proof {
            let knext = kp.push(ek as nat);
            let vnext = vp.push(ev as nat);
            assert forall|j: int| 0 <= j < i + 1 implies #[trigger] may_report(&keys.take(i + 1)[j],
                knext[j],
            ) by {
                if j < i {
                    assert(keys.take(i as int)[j] == keys.take(i + 1)[j]);
                    assert(may_report(&keys.take(i as int)[j], kp[j]));
                }
            }
            assert forall|j: int|
                0 <= j < i + 1 implies #[trigger] may_report(&values.take(i + 1)[j], vnext[j]) by {
                if j < i {
                    assert(values.take(i as int)[j] == values.take(i + 1)[j]);
                    assert(may_report(&values.take(i as int)[j], vp[j]));
                }
            }
            kp = knext;
            vp = vnext;
        }
        i = i + 1;
    }
    assert(keys.take(i as int) =~= keys);
    assert(values.take(i as int) =~= values);
    assert(is_entries_extra_size(entries, total as nat));
    total
}

/// The estimated extra size of a map of `length` entries (those behind `elements`) in `capacity`
/// slots that holds its first `grow_limit` entries inline: the extra sizes of those entries,
/// plus the table estimate of the rest with `grow_limit` taken off the capacity and the length.
pub fn split_map_extra_size<K: TypeSize, V: TypeSize>(
    elements: &[(&K, &V)],
    grow_limit: usize,
    capacity: usize,
    length: usize,
) -> (r: usize)
    requires
        saturating_diff(length as nat, grow_limit as nat) <= saturating_diff(
            capacity as nat,
            grow_limit as nat,
        ),
        forall|n: nat|
            #[trigger] is_split_map_extra_size(
                deref_pairs(elements@),
                grow_limit as nat,
                capacity as nat,
                length as nat,
                n,
            ) ==> n <= usize::MAX,
    ensures
        is_split_map_extra_size(
            deref_pairs(elements@),
            grow_limit as nat,
            capacity as nat,
            length as nat,
            r as nat,
        ),
{
    let ghost entries = deref_pairs(elements@);
    let head_len = if elements.len() < grow_limit {
        elements.len()
    } else {
        grow_limit
    };
    let head = slice_subrange(elements, 0, head_len);
    let tail = slice_subrange(elements, head_len, elements.len());
    let ghost h = head_len as int;
    let tail_capacity = capacity.saturating_sub(grow_limit);
    let tail_length = length.saturating_sub(grow_limit);
    let ghost free = (tail_capacity - tail_length) * (size_of::<K>() + size_of::<V>());
    let ghost tc = saturating_diff(capacity as nat, grow_limit as nat) as int;
    let ghost tl = saturating_diff(length as nat, grow_limit as nat) as int;
    assert(h == inline_count(entries.len(), grow_limit as nat) as int);
    assert(tc == tail_capacity && tl == tail_length);
    assert(deref_pairs(head@) =~= entries.take(h));
    assert(deref_pairs(tail@) =~= entries.skip(h));
    proof {
        lemma_total_sizes_exist(keys_of(entries.skip(h)));
        lemma_total_sizes_exist(values_of(entries.skip(h)));
        let kt = choose|s: Seq<nat>| #[trigger] are_total_sizes(keys_of(entries.skip(h)), s);
        let vt = choose|s: Seq<nat>| #[trigger] are_total_sizes(values_of(entries.skip(h)), s);
        let b = (sum_of(kt) + sum_of(vt) + free) as nat;
        assert(is_table_extra_size(entries.skip(h), tc, tl, b));
        assert forall|a: nat| #[trigger] is_entries_extra_size(entries.take(h), a) implies a
            <= usize::MAX by {
            assert(is_split_map_extra_size(
                entries,
                grow_limit as nat,
                capacity as nat,
                length as nat,
                a + b,
            ));
        }
        lemma_extra_sizes_exist(keys_of(entries.take(h)));
        lemma_extra_sizes_exist(values_of(entries.take(h)));
        let kh = choose|s: Seq<nat>| #[trigger] are_extra_sizes(keys_of(entries.take(h)), s);
        let vh = choose|s: Seq<nat>| #[trigger] are_extra_sizes(values_of(entries.take(h)), s);
        let a = (sum_of(kh) + sum_of(vh)) as nat;
        assert(is_entries_extra_size(entries.take(h), a));
        assert forall|ks: Seq<nat>, vs: Seq<nat>|
            #![trigger are_total_sizes(keys_of(entries.skip(h)), ks), are_total_sizes(values_of(entries.skip(h)), vs)]
            are_total_sizes(keys_of(entries.skip(h)), ks) && are_total_sizes(
                values_of(entries.skip(h)),
                vs,
            ) implies sum_of(ks) + sum_of(vs) + free <= usize::MAX by {
            let b2 = (sum_of(ks) + sum_of(vs) + free) as nat;
            assert(is_table_extra_size(entries.skip(h), tc, tl, b2));
            assert(is_split_map_extra_size(
                entries,
                grow_limit as nat,
                capacity as nat,
                length as nat,
                a + b2,
            ));
        }
    }
    let size = sum_entry_extra_sizes(head);
    let rest = generic_map_extra_size(tail, tail_capacity, tail_length);
    assert(is_split_map_extra_size(
        entries,
        grow_limit as nat,
        capacity as nat,
        length as nat,
        size as nat + rest as nat,
    ));
    size + rest
}

} // verus!

verus! {

/// `SizedHashMap::iter`, collected. The map is opaque here, so which entries come out is not
/// stated; there are as many as the map holds, each in a slot of at least
/// `size_of::<K>() + size_of::<V>()` bytes of one allocation, which never exceeds `isize::MAX`
/// bytes.
#[verifier::external_body]
fn sized_hash_map_entries<K, V, S, const N: usize>(
    m: &::halfbrown::SizedHashMap<K, V, S, N>,
) -> (r: Vec<(&K, &V)>)
    ensures
        r@.len() * (size_of::<K>() + size_of::<V>()) <= isize::MAX,
{
    m.iter().collect()
}

/// `SizedHashMap::capacity`: the capacity of the vector or table that holds the entries, one
/// slot of at least `size_of::<K>() + size_of::<V>()` bytes each in one allocation. The source
/// keeps it at least the length, which a separate call reads, so that is not stated.
#[verifier::external_body]
fn sized_hash_map_capacity<K, V, S, const N: usize>(
    m: &::halfbrown::SizedHashMap<K, V, S, N>,
) -> (r: usize)
    ensures
        r * (size_of::<K>() + size_of::<V>()) <= isize::MAX,
{
    m.capacity()
}

/// `SizedHashMap::len`. The map is opaque here, so nothing is stated of it.
#[verifier::external_body]
fn sized_hash_map_len<K, V, S, const N: usize>(m: &::halfbrown::SizedHashMap<K, V, S, N>) -> (r:
    usize) {
    m.len()
}

impl<K: TypeSize, V: TypeSize, S, const N: usize> TypeSize for ::halfbrown::SizedHashMap<
    K,
    V,
    S,
    N,
> {
    /// The split estimate, with the first `N` entries counted inline, over some entries, as many
    /// as the length, and a capacity of at least the length, the entries and the unused slots each fitting in one
    /// allocation.
    open spec fn is_extra_size(&self, n: nat) -> bool {
        exists|entries: Seq<(K, V)>, capacity: nat|
            #![trigger is_split_map_extra_size(entries, N as nat, capacity, entries.len(), n)]
            {
                &&& unused_fits(
                    capacity as int,
                    entries.len() as int,
                    (size_of::<K>() + size_of::<V>()) as int,
                )
                &&& entries.len() * (size_of::<K>() + size_of::<V>()) <= isize::MAX
                &&& is_split_map_extra_size(entries, N as nat, capacity, entries.len(), n)
            }
    }

    open spec fn is_item_count(&self, c: Option<usize>) -> bool {
        c is Some
    }

    fn extra_size(&self) -> (r: usize) {
        let elements = sized_hash_map_entries(self);
        let read_capacity = sized_hash_map_capacity(self);
        // The iterator hands out every entry once, so the entries it handed out number the
        // length.
        let length = elements.len();
        // The map never reports a capacity below its length; the length stands in for such a
        // reading.
        let capacity = if read_capacity < length {
            length
        } else {
            read_capacity
        };
        proof {
            if read_capacity >= length {
                lemma_unused_fits(
                    capacity as int,
                    length as int,
                    (size_of::<K>() + size_of::<V>()) as int,
                );
            }
        }
        let ghost entries = deref_pairs(elements@);
        proof {
            assert forall|n: nat|
                #[trigger] is_split_map_extra_size(
                    entries,
                    N as nat,
                    capacity as nat,
                    length as nat,
                    n,
                ) implies n <= usize::MAX by {
                assert(self.is_extra_size(n));
            }
        }
        split_map_extra_size(elements.as_slice(), N, capacity, length)
    }

    fn get_collection_item_count(&self) -> (r: Option<usize>) {
        Some(sized_hash_map_len(self))
    }

    fn get_size_details(&self) -> (r: Vec<Field>) {
        Vec::new()
    }
}

} // verus!
