//! Maps: the shared estimate of a hash table's footprint, and `HashMap`.
use std::collections::HashMap;
use vstd::prelude::*;
use vstd::layout::size_of;
use vstd::std_specs::hash::{builds_valid_hashers, obeys_key_model};
use vstd::std_specs::iter::IteratorSpec;

use crate::sizes::{
    lemma_may_report_exists, may_report,
    are_total_sizes, is_total_size, lemma_sum_push, lemma_total_sizes_exist, lemma_sum_append,
    sum_of,
};
use crate::{Field, TypeSize};

verus! {

/// The keys of a sequence of entries.
pub open spec fn keys_of<K, V>(entries: Seq<(K, V)>) -> Seq<K> {
    entries.map_values(|e: (K, V)| e.0)
}

/// The values of a sequence of entries.
pub open spec fn values_of<K, V>(entries: Seq<(K, V)>) -> Seq<V> {
    entries.map_values(|e: (K, V)| e.1)
}

/// The entries behind a sequence of pairs of references.
pub open spec fn deref_pairs<K, V>(pairs: Seq<(&K, &V)>) -> Seq<(K, V)> {
    pairs.map_values(|p: (&K, &V)| (*p.0, *p.1))
}

/// `n` is a size that a table of `capacity` slots, `length` of them in use and holding `entries`,
/// may report: the total sizes of every key and value plus `size_of::<K>() + size_of::<V>()` for
/// every unused slot.
pub open spec fn is_table_extra_size<K: TypeSize, V: TypeSize>(
    entries: Seq<(K, V)>,
    capacity: int,
    length: int,
    n: nat,
) -> bool {
    exists|ks: Seq<nat>, vs: Seq<nat>|
        #![trigger are_total_sizes(keys_of(entries), ks), are_total_sizes(values_of(entries), vs)]
        are_total_sizes(keys_of(entries), ks) && are_total_sizes(values_of(entries), vs) && n
            == sum_of(ks) + sum_of(vs) + (capacity - length) * (size_of::<K>() + size_of::<V>())
}

/// Any bound that holds of every complete set of reported key and value sizes also holds of the
/// sizes reported so far plus those of the entry at `i`.
proof fn lemma_entry_bounded<K: TypeSize, V: TypeSize>(
    entries: Seq<(K, V)>,
    kp: Seq<nat>,
    vp: Seq<nat>,
    i: int,
    gk: nat,
    gv: nat,
    extra: int,
)
    requires
        0 <= i < entries.len(),
        extra >= 0,
        are_total_sizes(keys_of(entries).take(i), kp),
        are_total_sizes(values_of(entries).take(i), vp),
        is_total_size(&entries[i].0, gk),
        is_total_size(&entries[i].1, gv),
        forall|ks: Seq<nat>, vs: Seq<nat>|
            #![trigger are_total_sizes(keys_of(entries), ks), are_total_sizes(values_of(entries), vs)]
            are_total_sizes(keys_of(entries), ks) && are_total_sizes(values_of(entries), vs)
                ==> sum_of(ks) + sum_of(vs) + extra <= usize::MAX,
    ensures
        sum_of(kp) + gk + sum_of(vp) + gv + extra <= usize::MAX,
{
    let keys = keys_of(entries);
    let values = values_of(entries);
    lemma_total_sizes_exist(keys.skip(i + 1));
    lemma_total_sizes_exist(values.skip(i + 1));
    let kr = choose|r: Seq<nat>| #[trigger] are_total_sizes(keys.skip(i + 1), r);
    let vr = choose|r: Seq<nat>| #[trigger] are_total_sizes(values.skip(i + 1), r);
    let kw = kp.push(gk) + kr;
    let vw = vp.push(gv) + vr;
    assert forall|j: int| 0 <= j < keys.len() implies #[trigger] is_total_size(&keys[j], kw[j]) by {
        if j < i {
            assert(keys.take(i)[j] == keys[j]);
            assert(is_total_size(&keys.take(i)[j], kp[j]));
        } else if j > i {
            assert(keys.skip(i + 1)[j - i - 1] == keys[j]);
            assert(is_total_size(&keys.skip(i + 1)[j - i - 1], kr[j - i - 1]));
        }
    }
    assert forall|j: int| 0 <= j < values.len() implies #[trigger] is_total_size(
        &values[j],
        vw[j],
    ) by {
        if j < i {
            assert(values.take(i)[j] == values[j]);
            assert(is_total_size(&values.take(i)[j], vp[j]));
        } else if j > i {
            assert(values.skip(i + 1)[j - i - 1] == values[j]);
            assert(is_total_size(&values.skip(i + 1)[j - i - 1], vr[j - i - 1]));
        }
    }
    assert(are_total_sizes(keys, kw));
    assert(are_total_sizes(values, vw));
    lemma_sum_append(kp.push(gk), kr);
    lemma_sum_push(kp, gk);
    lemma_sum_append(vp.push(gv), vr);
    lemma_sum_push(vp, gv);
}

/// The estimated extra size of a table of `capacity` slots, `length` of them in use, holding the
/// entries behind `elements`: the total size of every key and value plus
/// `size_of::<K>() + size_of::<V>()` for every unused slot.
pub fn generic_map_extra_size<K: TypeSize, V: TypeSize>(
    elements: &[(&K, &V)],
    capacity: usize,
    length: usize,
) -> (r: usize)
    requires
        length <= capacity,
        forall|ks: Seq<nat>, vs: Seq<nat>|
            #![trigger are_total_sizes(keys_of(deref_pairs(elements@)), ks), are_total_sizes(values_of(deref_pairs(elements@)), vs)]
            are_total_sizes(keys_of(deref_pairs(elements@)), ks) && are_total_sizes(
                values_of(deref_pairs(elements@)),
                vs,
            ) ==> sum_of(ks) + sum_of(vs) + (capacity - length) * (size_of::<K>() + size_of::<V>())
                <= usize::MAX,
    ensures
        is_table_extra_size(deref_pairs(elements@), capacity as int, length as int, r as nat),
{
    let ghost entries = deref_pairs(elements@);
    let ghost keys = keys_of(entries);
    let ghost values = values_of(entries);
    let ghost free = (capacity - length) * (size_of::<K>() + size_of::<V>());
    proof {
        lemma_total_sizes_exist(keys);
        lemma_total_sizes_exist(values);
        let ks = choose|s: Seq<nat>| are_total_sizes(keys, s);
        let vs = choose|s: Seq<nat>| are_total_sizes(values, s);
        assert(sum_of(ks) + sum_of(vs) + free <= usize::MAX);
    }
    let mut element_size: usize = 0;
    let ghost mut kp: Seq<nat> = Seq::empty();
    let ghost mut vp: Seq<nat> = Seq::empty();
    let mut i: usize = 0;
    while i < elements.len()
        invariant
            i <= elements@.len(),
            entries == deref_pairs(elements@),
            keys == keys_of(entries),
            values == values_of(entries),
            entries.len() == elements@.len(),
            keys.len() == entries.len(),
            values.len() == entries.len(),
            free == (capacity - length) * (size_of::<K>() + size_of::<V>()),
            free >= 0,
            forall|ks: Seq<nat>, vs: Seq<nat>|
                #![trigger are_total_sizes(keys, ks), are_total_sizes(values, vs)]
                are_total_sizes(keys, ks) && are_total_sizes(values, vs) ==> sum_of(ks) + sum_of(vs)
                    + free <= usize::MAX,
            are_total_sizes(keys.take(i as int), kp),
            are_total_sizes(values.take(i as int), vp),
            element_size == sum_of(kp) + sum_of(vp),
        decreases elements@.len() - i,
    {
        let (key, value) = elements[i];
        assert(keys[i as int] == *key);
        assert(values[i as int] == *value);
        proof {
            assert forall|n: nat| #[trigger] key.is_extra_size(n) implies size_of::<K>() + n
                <= usize::MAX by {
                lemma_may_report_exists(&values[i as int]);
                let e = choose|e: nat| may_report(&values[i as int], e);
                lemma_entry_bounded(
                    entries,
                    kp,
                    vp,
                    i as int,
                    (size_of::<K>() + n) as nat,
                    (size_of::<V>() + e) as nat,
                    free,
                );
            }
            assert forall|n: nat| #[trigger] value.is_extra_size(n) implies size_of::<V>() + n
                <= usize::MAX by {
                lemma_may_report_exists(&keys[i as int]);
                let e = choose|e: nat| may_report(&keys[i as int], e);
                lemma_entry_bounded(
                    entries,
                    kp,
                    vp,
                    i as int,
                    (size_of::<K>() + e) as nat,
                    (size_of::<V>() + n) as nat,
                    free,
                );
            }
        }
        let gk = key.get_size();
        let gv = value.get_size();
        proof {
            lemma_entry_bounded(entries, kp, vp, i as int, gk as nat, gv as nat, free);
            lemma_sum_push(kp, gk as nat);
            lemma_sum_push(vp, gv as nat);
        }
        element_size = element_size + gk + gv;
        proof {
            let knext = kp.push(gk as nat);
            let vnext = vp.push(gv as nat);
            assert forall|j: int| 0 <= j < i + 1 implies #[trigger] is_total_size(
                &keys.take(i + 1)[j],
                knext[j],
            ) by {
                if j < i {
                    assert(keys.take(i as int)[j] == keys.take(i + 1)[j]);
                    assert(is_total_size(&keys.take(i as int)[j], kp[j]));
                }
            }
            assert forall|j: int| 0 <= j < i + 1 implies #[trigger] is_total_size(
                &values.take(i + 1)[j],
                vnext[j],
            ) by {
                if j < i {
                    assert(values.take(i as int)[j] == values.take(i + 1)[j]);
                    assert(is_total_size(&values.take(i as int)[j], vp[j]));
                }
            }
            kp = knext;
            vp = vnext;
        }
        i = i + 1;
    }
    assert(keys.take(i as int) =~= keys);
    assert(values.take(i as int) =~= values);
    vstd::layout::layout_for_type_is_valid::<K>();
    vstd::layout::layout_for_type_is_valid::<V>();
    let free_space = capacity - length;
    let free_size = free_space * (core::mem::size_of::<K>() + core::mem::size_of::<V>());
    element_size + free_size
}

} // verus!

verus! {

/// `entries` lists every entry of `m` and nothing else.
pub open spec fn lists_entries<K, V>(m: Map<K, V>, entries: Seq<(K, V)>) -> bool {
    &&& forall|i: int|
        0 <= i < entries.len() ==> m.contains_key(#[trigger] entries[i].0) && m[entries[i].0]
            == entries[i].1
    &&& forall|k: K| #[trigger] m.contains_key(k) ==> entries.contains((k, m[k]))
}

/// `HashMap::iter`, collected: the map's entries in the order in which the iterator visits
/// them. The standard library documents that the iterator visits every key-value pair; the
/// contract states it where vstd models the map (`obeys_key_model` and `builds_valid_hashers`).
/// The order is left unstated.
#[verifier::external_body]
fn hash_map_entries<K, V, S>(m: &HashMap<K, V, S>) -> (r: Vec<(&K, &V)>)
    ensures
        r@.len() == m.len(),
        obeys_key_model::<K>() && builds_valid_hashers::<S>() ==> lists_entries(
            m@,
            deref_pairs(r@),
        ),
{
    m.iter().collect()
}

/// `HashMap::capacity`, which the standard library documents as never below the length; it
/// documents no upper bound.
#[verifier::external_body]
fn hash_map_capacity<K, V, S>(m: &HashMap<K, V, S>) -> (r: usize)
    ensures
        r >= m.len(),
{
    m.capacity()
}

impl<K: TypeSize, V: TypeSize, S> TypeSize for HashMap<K, V, S> {
    /// The table estimate over the map's entries, with a capacity of at least the length.
    open spec fn is_extra_size(&self, n: nat) -> bool {
        exists|entries: Seq<(K, V)>, capacity: nat|
            #![trigger is_table_extra_size(entries, capacity as int, self.len() as int, n)]
            {
                &&& self.len() <= capacity <= usize::MAX
                &&& entries.len() == self.len()
                &&& obeys_key_model::<K>() && builds_valid_hashers::<S>() && self@.dom().finite()
                    ==> lists_entries(self@, entries)
                &&& is_table_extra_size(entries, capacity as int, self.len() as int, n)
            }
    }

    open spec fn is_item_count(&self, c: Option<usize>) -> bool {
        c == Some(self.len())
    }

    fn extra_size(&self) -> (r: usize) {
        let elements = hash_map_entries(self);
        let capacity = hash_map_capacity(self);
        let length = self.len();
        let ghost entries = deref_pairs(elements@);
        proof {
            assert forall|ks: Seq<nat>, vs: Seq<nat>|
                #![trigger are_total_sizes(keys_of(entries), ks), are_total_sizes(values_of(entries), vs)]
                are_total_sizes(keys_of(entries), ks) && are_total_sizes(values_of(entries), vs)
                    implies sum_of(ks) + sum_of(vs) + (capacity - length) * (size_of::<K>()
                    + size_of::<V>()) <= usize::MAX by {
                let n = (sum_of(ks) + sum_of(vs) + (capacity - length) * (size_of::<K>()
                    + size_of::<V>())) as nat;
                assert(is_table_extra_size(entries, capacity as int, length as int, n));
                assert(self.is_extra_size(n));
            }
        }
        let r = generic_map_extra_size(elements.as_slice(), capacity, length);
        assert(is_table_extra_size(entries, capacity as int, length as int, r as nat));
        r
    }

    fn get_collection_item_count(&self) -> (r: Option<usize>) {
        Some(self.len())
    }

    fn get_size_details(&self) -> (r: Vec<Field>) {
        Vec::new()
    }
}

} // verus!
