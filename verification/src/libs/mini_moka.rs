//! `mini_moka`'s caches: each is estimated as a full hash table of its entries.
use core::hash::{BuildHasher, Hash};
use vstd::prelude::*;
use vstd::layout::size_of;

use crate::map::{deref_pairs, generic_map_extra_size, is_table_extra_size, keys_of, values_of};
use crate::sizes::{are_total_sizes, is_total_size, lemma_may_report_exists, lemma_sum_append, may_report, sum_of};
use crate::{Field, TypeSize};

verus! {

/// `mini_moka::unsync::Cache`, carried as an opaque value.
#[verifier::external_type_specification]
#[verifier::external_body]
#[verifier::reject_recursive_types(K)]
#[verifier::reject_recursive_types(V)]
#[verifier::reject_recursive_types(S)]
pub struct ExUnsyncCache<K, V, S>(::mini_moka::unsync::Cache<K, V, S>);

/// `Cache::iter`, collected: the entries that have not expired. The cache is opaque here, so
/// which entries come out is not stated; they are collected into a `Vec` of pairs of references,
/// and a `Vec` of elements that are not zero-sized never holds more than `isize::MAX` of them.
#[verifier::external_body]
fn cache_entries<K: Hash + Eq, V, S: BuildHasher + Clone>(
    c: &::mini_moka::unsync::Cache<K, V, S>,
) -> (r: Vec<(&K, &V)>)
    ensures
        r@.len() <= isize::MAX,
{
    c.iter().collect()
}

/// `Cache::entry_count`. The cache is opaque here, so nothing is stated of it.
#[verifier::external_body]
fn cache_entry_count<K, V, S>(c: &::mini_moka::unsync::Cache<K, V, S>) -> (r: u64) {
    c.entry_count()
}

/// The entry count as a `usize`, truncated where it does not fit.
pub fn count_as_usize(count: u64) -> (r: usize)
    ensures
        r == count as usize,
{
    #[verifier::truncate]
    (count as usize)
}

impl<K: TypeSize + Hash + Eq, V: TypeSize, S: BuildHasher + Clone> TypeSize for ::mini_moka::unsync::Cache<K, V, S> {
    /// The table estimate over some entries, at most `isize::MAX` of them, with no unused slots:
    /// the cache reports its entry count as both its capacity and its length.
    open spec fn is_extra_size(&self, n: nat) -> bool {
        exists|entries: Seq<(K, V)>, count: int|
            #![trigger is_table_extra_size(entries, count, count, n)]
            entries.len() <= isize::MAX && is_table_extra_size(entries, count, count, n)
    }

    open spec fn is_item_count(&self, c: Option<usize>) -> bool {
        c is Some
    }

    fn extra_size(&self) -> (r: usize) {
        let elements = cache_entries(self);
        let count = count_as_usize(cache_entry_count(self));
        let ghost entries = deref_pairs(elements@);
        proof {
            assert forall|ks: Seq<nat>, vs: Seq<nat>|
                #![trigger are_total_sizes(keys_of(entries), ks), are_total_sizes(values_of(entries), vs)]
                are_total_sizes(keys_of(entries), ks) && are_total_sizes(values_of(entries), vs)
                    implies sum_of(ks) + sum_of(vs) + (count - count) * (size_of::<K>()
                    + size_of::<V>()) <= usize::MAX by {
                let n = (sum_of(ks) + sum_of(vs)) as nat;
                assert(is_table_extra_size(entries, count as int, count as int, n));
                assert(self.is_extra_size(n));
            }
        }
        generic_map_extra_size(elements.as_slice(), count, count)
    }

    fn get_collection_item_count(&self) -> (r: Option<usize>) {
        Some(count_as_usize(cache_entry_count(self)))
    }

    fn get_size_details(&self) -> (r: Vec<Field>) {
        Vec::new()
    }
}

} // verus!

verus! {

/// `mini_moka::sync::Cache`, carried as an opaque value.
#[verifier::external_type_specification]
#[verifier::external_body]
#[verifier::reject_recursive_types(K)]
#[verifier::reject_recursive_types(V)]
#[verifier::reject_recursive_types(S)]
pub struct ExSyncCache<K, V, S>(::mini_moka::sync::Cache<K, V, S>);

/// `sync::Cache::iter`, each entry that has not expired handed, while its guard is held, to
/// `f` as a key and a value; the pairs of sizes that `f` gives, in the order of the iteration.
/// The cache is opaque here, so which entries there are is not stated: each result is one that
/// `f` gives for some key and value. The results are collected into a `Vec` of pairs of
/// integers, which never holds more than `isize::MAX` of them.
#[verifier::external_body]
fn sync_cache_map_entries<K: Hash + Eq, V, S: BuildHasher + Clone, F: Fn(&K, &V) -> (usize, usize)>(
    c: &::mini_moka::sync::Cache<K, V, S>,
    f: F,
) -> (r: Vec<(usize, usize)>)
    requires
        forall|k: &K, v: &V| #[trigger] f.requires((k, v)),
    ensures
        r@.len() <= isize::MAX,
        forall|i: int|
            #![trigger r@[i]]
            0 <= i < r@.len() ==> exists|k: &K, v: &V| #[trigger] f.ensures((k, v), r@[i]),
{
    c.iter().map(|entry| f(entry.key(), entry.value())).collect()
}

/// `sync::Cache::entry_count`. The cache is opaque here, so nothing is stated of it.
#[verifier::external_body]
fn sync_cache_entry_count<K, V, S>(c: &::mini_moka::sync::Cache<K, V, S>) -> (r: u64) {
    c.entry_count()
}

/// Every total size that a key or a value may report fits, given that every table estimate does.
proof fn lemma_single_entry_fits<K: TypeSize, V: TypeSize>(k: K, v: V)
    requires
        forall|entries: Seq<(K, V)>, count: int, n: nat|
            #[trigger] is_table_extra_size(entries, count, count, n) ==> entries.len()
                <= isize::MAX ==> n <= usize::MAX,
    ensures
        forall|n: nat| #[trigger] k.is_extra_size(n) ==> size_of::<K>() + n <= usize::MAX,
        forall|n: nat| #[trigger] v.is_extra_size(n) ==> size_of::<V>() + n <= usize::MAX,
{
    let entries = seq![(k, v)];
    assert(keys_of(entries) =~= seq![k]);
    assert(values_of(entries) =~= seq![v]);
    assert forall|n: nat| #[trigger] k.is_extra_size(n) implies size_of::<K>() + n <= usize::MAX by {
        lemma_may_report_exists(&v);
        let e = choose|e: nat| may_report(&v, e);
        let ks = seq![(size_of::<K>() + n) as nat];
        let vs = seq![(size_of::<V>() + e) as nat];
        assert(are_total_sizes(keys_of(entries), ks));
        assert(are_total_sizes(values_of(entries), vs));
        assert(sum_of(ks) == size_of::<K>() + n) by {
            assert(ks.drop_last() =~= Seq::<nat>::empty());
            assert(sum_of(ks.drop_last()) == 0);
            assert(ks.last() == size_of::<K>() + n);
        }
        assert(sum_of(vs) == size_of::<V>() + e) by {
            assert(vs.drop_last() =~= Seq::<nat>::empty());
        }
        assert(is_table_extra_size(entries, 0, 0, sum_of(ks) + sum_of(vs)));
    }
    assert forall|n: nat| #[trigger] v.is_extra_size(n) implies size_of::<V>() + n <= usize::MAX by {
        lemma_may_report_exists(&k);
        let e = choose|e: nat| may_report(&k, e);
        let ks = seq![(size_of::<K>() + e) as nat];
        let vs = seq![(size_of::<V>() + n) as nat];
        assert(are_total_sizes(keys_of(entries), ks));
        assert(are_total_sizes(values_of(entries), vs));
        assert(sum_of(ks) == size_of::<K>() + e) by {
            assert(ks.drop_last() =~= Seq::<nat>::empty());
            assert(sum_of(ks.drop_last()) == 0);
            assert(ks.last() == size_of::<K>() + e);
        }
        assert(sum_of(vs) == size_of::<V>() + n) by {
            assert(vs.drop_last() =~= Seq::<nat>::empty());
        }
        assert(is_table_extra_size(entries, 0, 0, sum_of(ks) + sum_of(vs)));
    }
}

/// The sum of a prefix of sizes is at most the sum of all of them.
proof fn lemma_prefix_sum_le(s: Seq<nat>, k: int)
    requires
        0 <= k <= s.len(),
    ensures
        sum_of(s.take(k)) <= sum_of(s),
{
    lemma_sum_append(s.take(k), s.skip(k));
    assert(s.take(k) + s.skip(k) =~= s);
}

/// The total sizes of a key and of a value.
fn pair_total_sizes<K: TypeSize, V: TypeSize>(k: &K, v: &V) -> (r: (usize, usize))
    requires
        forall|x: K, n: nat| #[trigger] x.is_extra_size(n) ==> size_of::<K>() + n <= usize::MAX,
        forall|x: V, n: nat| #[trigger] x.is_extra_size(n) ==> size_of::<V>() + n <= usize::MAX,
    ensures
        is_total_size(k, r.0 as nat),
        is_total_size(v, r.1 as nat),
{
    (k.get_size(), v.get_size())
}

impl<K: TypeSize + Hash + Eq, V: TypeSize, S: BuildHasher + Clone> TypeSize for ::mini_moka::sync::Cache<K, V, S> {
    /// The table estimate over some entries, at most `isize::MAX` of them, with no unused slots:
    /// the cache reports its entry count as both its capacity and its length.
    open spec fn is_extra_size(&self, n: nat) -> bool {
        exists|entries: Seq<(K, V)>, count: int|
            #![trigger is_table_extra_size(entries, count, count, n)]
            entries.len() <= isize::MAX && is_table_extra_size(entries, count, count, n)
    }

    open spec fn is_item_count(&self, c: Option<usize>) -> bool {
        c is Some
    }

    fn extra_size(&self) -> (r: usize) {
        proof {
            assert forall|entries: Seq<(K, V)>, count: int, n: nat|
                #[trigger] is_table_extra_size(entries, count, count, n) && entries.len()
                    <= isize::MAX implies n <= usize::MAX by {
                assert(self.is_extra_size(n));
            }
            assert forall|x: K, n: nat| #[trigger] x.is_extra_size(n) implies size_of::<K>() + n
                <= usize::MAX by {
                lemma_single_entry_fits(x, vstd::pervasive::arbitrary::<V>());
            }
            assert forall|x: V, n: nat| #[trigger] x.is_extra_size(n) implies size_of::<V>() + n
                <= usize::MAX by {
                lemma_single_entry_fits(vstd::pervasive::arbitrary::<K>(), x);
            }
        }
        let f = |k: &K, v: &V| -> (r: (usize, usize))
            requires
                forall|x: K, n: nat| #[trigger] x.is_extra_size(n) ==> size_of::<K>() + n
                    <= usize::MAX,
                forall|x: V, n: nat| #[trigger] x.is_extra_size(n) ==> size_of::<V>() + n
                    <= usize::MAX,
            ensures
                is_total_size(k, r.0 as nat),
                is_total_size(v, r.1 as nat),
            { pair_total_sizes(k, v) };
        let sizes = sync_cache_map_entries(self, f);
        let ghost ks = sizes@.map_values(|p: (usize, usize)| p.0 as nat);
        let ghost vs = sizes@.map_values(|p: (usize, usize)| p.1 as nat);
        let ghost entries = Seq::new(
            sizes@.len(),
            |i: int|
                choose|e: (K, V)|
                    is_total_size(&e.0, sizes@[i].0 as nat) && is_total_size(&e.1, sizes@[i].1 as nat),
        );
        proof {
            assert forall|i: int| 0 <= i < sizes@.len() implies is_total_size(
                &entries[i].0,
                sizes@[i].0 as nat,
            ) && is_total_size(&entries[i].1, sizes@[i].1 as nat) by {
                let (k, v) = choose|k: &K, v: &V| #[trigger] f.ensures((k, v), sizes@[i]);
                assert(is_total_size(k, sizes@[i].0 as nat) && is_total_size(v, sizes@[i].1 as nat));
                let e: (K, V) = (*k, *v);
                assert(is_total_size(&e.0, sizes@[i].0 as nat) && is_total_size(
                    &e.1,
                    sizes@[i].1 as nat,
                ));
            }
            assert(are_total_sizes(keys_of(entries), ks));
            assert(are_total_sizes(values_of(entries), vs));
            assert(is_table_extra_size(entries, 0, 0, sum_of(ks) + sum_of(vs)));
            assert(self.is_extra_size(sum_of(ks) + sum_of(vs)));
        }
        let mut total: usize = 0;
        let mut i: usize = 0;
        while i < sizes.len()
            invariant
                i <= sizes@.len(),
                ks == sizes@.map_values(|p: (usize, usize)| p.0 as nat),
                vs == sizes@.map_values(|p: (usize, usize)| p.1 as nat),
                sum_of(ks) + sum_of(vs) <= usize::MAX,
                total == sum_of(ks.take(i as int)) + sum_of(vs.take(i as int)),
            decreases sizes@.len() - i,
        {
            let (a, b) = sizes[i];
            proof {
                assert(ks.take(i + 1).drop_last() =~= ks.take(i as int));
                assert(vs.take(i + 1).drop_last() =~= vs.take(i as int));
                lemma_prefix_sum_le(ks, i + 1);
                lemma_prefix_sum_le(vs, i + 1);
            }
            total = total + a + b;
            i = i + 1;
        }
        proof {
            assert(ks.take(i as int) =~= ks);
            assert(vs.take(i as int) =~= vs);
            assert(is_table_extra_size(entries, 0, 0, total as nat));
        }
        total
    }

    fn get_collection_item_count(&self) -> (r: Option<usize>) {
        Some(count_as_usize(sync_cache_entry_count(self)))
    }

    fn get_size_details(&self) -> (r: Vec<Field>) {
        Vec::new()
    }
}

} // verus!
