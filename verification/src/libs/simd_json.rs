//! `simd_json`: static nodes and owned values.
//!
//! An owned value is estimated through what it holds, described by a [`SimdModel`]: a string by
//! its buffer, an array as a `Vec` of values, and an object as the boxed `halfbrown` map of
//! strings to values that holds it, estimated as `halfbrown::SizedHashMap` is.
use vstd::prelude::*;
use vstd::layout::size_of;

use crate::sizes::{lemma_sum_append, lemma_sum_push, lemma_unused_fits, sum_of, unused_fits};
use crate::vec::{lemma_string_reports_exist, string_reports, vec_capacity};
use crate::{Field, TypeSize};

verus! {

/// `simd_json::StaticNode`, carried as an opaque value.
#[verifier::external_type_specification]
#[verifier::external_body]
pub struct ExStaticNode(::simd_json::StaticNode);

/// `simd_json::OwnedValue`, carried as an opaque value; [`simd_value_parts`] tells its variants
/// apart.
#[verifier::external_type_specification]
#[verifier::external_body]
pub struct ExOwnedValue(::simd_json::OwnedValue);

impl TypeSize for ::simd_json::StaticNode {
    fn extra_size(&self) -> (r: usize) {
        0
    }

    fn get_collection_item_count(&self) -> (r: Option<usize>) {
        None
    }

    fn get_size_details(&self) -> (r: Vec<Field>) {
        Vec::new()
    }
}

/// The map behind an object: a `halfbrown::HashMap` of strings to values, whose hasher type is
/// not one that can be named here, so the map is held in a field that Verus does not read.
#[verifier::external_body]
pub struct SimdObject<'a> {
    map: &'a ::simd_json::owned::Object,
}

/// What an owned value holds, as far as its size depends on it: a string by its characters, an
/// array by its items in order, an object by the size of its map and the entries of the map.
pub enum SimdModel {
    Static,
    String(Seq<char>),
    Array(Seq<SimdModel>),
    Object(nat, Seq<(Seq<char>, SimdModel)>),
}

/// The model of what a `simd_json::OwnedValue` holds. [`simd_value_parts`] states it one level at
/// a time.
pub uninterp spec fn simd_model(v: ::simd_json::OwnedValue) -> SimdModel;

/// The entries of an object's map, each key by its characters and each value by its model, in an
/// order that is left open. (The map walks them in an order of its own, which for a map of more
/// entries than it keeps in its inline vector depends on a hasher seeded once per process.)
pub uninterp spec fn simd_object_model(o: SimdObject) -> Seq<(Seq<char>, SimdModel)>;

/// `p` maps the positions `0..len` one to one onto themselves.
pub open spec fn is_index_permutation(p: spec_fn(int) -> int, len: nat) -> bool {
    &&& forall|i: int| 0 <= i < len ==> 0 <= #[trigger] p(i) < len
    &&& forall|i: int, j: int| 0 <= i < len && 0 <= j < len && i != j ==> #[trigger] p(i) != #[trigger] p(j)
}

/// The entries `entries` in the order given by `p`: the one at position `i` is `entries[p(i)]`.
pub open spec fn permuted<A>(entries: Seq<A>, p: spec_fn(int) -> int) -> Seq<A> {
    Seq::new(entries.len(), |i: int| entries[p(i)])
}

/// The size of an object's map, `size_of` of the map type.
pub uninterp spec fn simd_object_size(o: SimdObject) -> nat;

/// The models of a sequence of values.
pub open spec fn simd_models_of(items: Seq<::simd_json::OwnedValue>) -> Seq<SimdModel> {
    items.map_values(|v: ::simd_json::OwnedValue| simd_model(v))
}

/// An owned value taken apart, with references to what it holds.
pub enum SimdValueRef<'a> {
    Static(&'a ::simd_json::StaticNode),
    String(&'a String),
    Array(&'a Vec<::simd_json::OwnedValue>),
    Object(SimdObject<'a>),
}

/// The model that the parts of a value make up.
pub open spec fn simd_parts_model(p: SimdValueRef) -> SimdModel {
    match p {
        SimdValueRef::Static(_) => SimdModel::Static,
        SimdValueRef::String(s) => SimdModel::String(s@),
        SimdValueRef::Array(items) => SimdModel::Array(simd_models_of(items@)),
        SimdValueRef::Object(o) => SimdModel::Object(simd_object_size(o), simd_object_model(o)),
    }
}

/// `simd_json::OwnedValue`'s variants, one arm each: the model of the value is the one that its
/// variant and the models of what that variant holds make up.
#[verifier::external_body]
fn simd_value_parts(v: &::simd_json::OwnedValue) -> (r: SimdValueRef<'_>)
    ensures
        simd_model(*v) == simd_parts_model(r),
{
    match v {
        ::simd_json::OwnedValue::Static(node) => SimdValueRef::Static(node),
        ::simd_json::OwnedValue::String(s) => SimdValueRef::String(s),
        ::simd_json::OwnedValue::Array(items) => SimdValueRef::Array(items),
        ::simd_json::OwnedValue::Object(map) => SimdValueRef::Object(SimdObject { map }),
    }
}

/// `size_of` of the map type behind an object.
#[verifier::external_body]
fn simd_object_size_of(o: &SimdObject) -> (r: usize)
    ensures
        r == simd_object_size(*o),
{
    core::mem::size_of_val(o.map)
}

/// `SizedHashMap::iter` on an object's map, collected: its entries, each once, as many as it
/// holds. The order in which they come out is the map's own, so it is stated only that they are
/// the entries of [`simd_object_model`] in some order.
#[verifier::external_body]
fn simd_object_entries<'a>(o: &SimdObject<'a>) -> (r: Vec<(&'a String, &'a ::simd_json::OwnedValue)>)
    ensures
        r@.len() == simd_object_model(*o).len(),
        exists|p: spec_fn(int) -> int|
            #![trigger is_index_permutation(p, r@.len())]
            is_index_permutation(p, r@.len()) && forall|i: int|
                0 <= i < r@.len() ==> #[trigger] simd_object_model(*o)[p(i)] == (
                    r@[i].0@,
                    simd_model(*r@[i].1),
                ),
{
    o.map.iter().collect()
}

/// `SizedHashMap::capacity` on an object's map: the capacity of the vector or table that holds
/// the entries, one slot of at least `size_of::<String>() + size_of::<OwnedValue>()` bytes each in
/// one allocation. The source keeps it at least the length, which the entries give, so that is
/// not stated.
#[verifier::external_body]
fn simd_object_capacity(o: &SimdObject) -> (r: usize)
    ensures
        r * (size_of::<String>() + size_of::<::simd_json::OwnedValue>()) <= isize::MAX,
{
    o.map.capacity()
}

/// The number of leading entries of an object that the estimate counts by their extra sizes
/// alone: those the map can hold in its inline vector.
pub open spec fn inline_limit() -> nat {
    32
}

/// What the estimate adds to the extra size of the key of the entry at `i`: nothing for the
/// leading entries, `size_of::<String>()` after them.
pub open spec fn key_offset(i: int) -> nat {
    if i < inline_limit() {
        0
    } else {
        size_of::<String>()
    }
}

/// What the estimate adds to the extra size of the value of the entry at `i`: nothing for the
/// leading entries, `size_of::<OwnedValue>()` after them.
pub open spec fn value_offset(i: int) -> nat {
    if i < inline_limit() {
        0
    } else {
        size_of::<::simd_json::OwnedValue>()
    }
}

/// `a - b`, or zero when `b` is larger.
pub open spec fn sat_sub(a: nat, b: nat) -> nat {
    if a >= b {
        (a - b) as nat
    } else {
        0
    }
}

/// What the estimate of a map of `len` entries in `capacity` slots adds for its unused slots past
/// the leading ones: `size_of::<String>() + size_of::<OwnedValue>()` for each.
pub open spec fn object_free(capacity: nat, len: nat) -> int {
    (sat_sub(capacity, inline_limit()) - sat_sub(len, inline_limit())) * (size_of::<String>()
        + size_of::<::simd_json::OwnedValue>())
}

/// The item totals of an array: `ts[i]` is `size_of::<OwnedValue>()` plus an extra size that the
/// item of model `items[i]` may report.
pub open spec fn simd_item_totals(items: Seq<SimdModel>, ts: Seq<nat>) -> bool {
    &&& ts.len() == items.len()
    &&& forall|i: int|
        0 <= i < items.len() ==> #[trigger] ts[i] >= size_of::<::simd_json::OwnedValue>()
            && simd_reports(items[i], (ts[i] - size_of::<::simd_json::OwnedValue>()) as nat)
}

/// The entry sizes of the entries of an object from position `start` on: `ks[i]` is the
/// [`key_offset`] of its position plus an extra size that the key of `entries[i]` may report,
/// `vs[i]` the same for its value with [`value_offset`].
pub open spec fn simd_entry_sizes(
    entries: Seq<(Seq<char>, SimdModel)>,
    start: int,
    ks: Seq<nat>,
    vs: Seq<nat>,
) -> bool {
    &&& ks.len() == entries.len()
    &&& vs.len() == entries.len()
    &&& forall|i: int|
        0 <= i < entries.len() ==> {
            &&& #[trigger] ks[i] >= key_offset(start + i)
            &&& string_reports(entries[i].0, (ks[i] - key_offset(start + i)) as nat)
            &&& vs[i] >= value_offset(start + i)
            &&& simd_reports(entries[i].1, (vs[i] - value_offset(start + i)) as nat)
        }
}

/// The extra size of an array of `len` items with item totals `ts` in a buffer of `capacity`
/// slots: the totals plus `size_of::<OwnedValue>()` for every unused slot.
pub open spec fn simd_array_size(len: nat, capacity: nat, ts: Seq<nat>) -> int {
    sum_of(ts) + (capacity - len) * size_of::<::simd_json::OwnedValue>()
}

/// The extra size of a boxed map of `size` bytes with entry sizes `ks` and `vs` in `capacity`
/// slots.
pub open spec fn simd_object_estimate(size: nat, capacity: nat, ks: Seq<nat>, vs: Seq<nat>) -> int {
    size + sum_of(ks) + sum_of(vs) + object_free(capacity, ks.len())
}

/// `n` is an extra size that a value of model `m` may report: nothing for a static node, the
/// buffer of a string, the estimate of a `Vec` of values for an array, and for an object the
/// size of its boxed map plus the map's estimate.
pub open spec fn simd_reports(m: SimdModel, n: nat) -> bool
    decreases m,
{
    match m {
        SimdModel::Static => n == 0,
        SimdModel::String(s) => string_reports(s, n),
        SimdModel::Array(items) => simd_array_reports(items, n),
        SimdModel::Object(size, entries) => simd_object_reports(size, entries, n),
    }
}

/// `n` is an extra size that a `Vec` of values of models `items` may report: the total size of
/// every item plus `size_of::<OwnedValue>()` for every unused slot of a capacity of at least the
/// length, the unused slots fitting in one allocation.
pub open spec fn simd_array_reports(items: Seq<SimdModel>, n: nat) -> bool
    decreases items,
{
    exists|capacity: nat, ts: Seq<nat>|
        #![trigger simd_array_size(items.len(), capacity, ts)]
        {
            &&& unused_fits(
                capacity as int,
                items.len() as int,
                size_of::<::simd_json::OwnedValue>() as int,
            )
            &&& ts.len() == items.len()
            &&& forall|i: int|
                0 <= i < items.len() ==> #[trigger] ts[i] >= size_of::<::simd_json::OwnedValue>()
                    && simd_reports(
                    items[i],
                    (ts[i] - size_of::<::simd_json::OwnedValue>()) as nat,
                )
            &&& n == simd_array_size(items.len(), capacity, ts)
        }
}

/// `n` is an extra size that a boxed map of `size` bytes with entries `entries` may report:
/// `size`, the extra sizes of the keys and values of the first [`inline_limit`] entries in the
/// order in which the map walks them (some order `p`), the total sizes of those of the rest, and `size_of::<String>() + size_of::<OwnedValue>()` for every slot
/// past the leading ones of a capacity of at least the length that is not in use, the unused
/// slots fitting in one allocation.
pub open spec fn simd_object_reports(size: nat, entries: Seq<(Seq<char>, SimdModel)>, n: nat) -> bool
    decreases entries,
{
    exists|capacity: nat, p: spec_fn(int) -> int, ks: Seq<nat>, vs: Seq<nat>|
        #![trigger simd_object_estimate(size, capacity, ks, vs), is_index_permutation(p, entries.len())]
        {
            &&& unused_fits(
                capacity as int,
                entries.len() as int,
                (size_of::<String>() + size_of::<::simd_json::OwnedValue>()) as int,
            )
            &&& is_index_permutation(p, entries.len())
            &&& ks.len() == entries.len()
            &&& vs.len() == entries.len()
            &&& forall|i: int|
                0 <= i < entries.len() ==> {
                    &&& 0 <= p(i) < entries.len()
                    &&& #[trigger] ks[i] >= key_offset(i)
                    &&& string_reports(entries[p(i)].0, (ks[i] - key_offset(i)) as nat)
                    &&& vs[i] >= value_offset(i)
                    &&& simd_reports(entries[p(i)].1, (vs[i] - value_offset(i)) as nat)
                }
            &&& n == simd_object_estimate(size, capacity, ks, vs)
        }
}

/// Every value reports at least one extra size.
pub proof fn lemma_simd_reports_exist(m: SimdModel)
    ensures
        exists|n: nat| simd_reports(m, n),
    decreases m,
{
    match m {
        SimdModel::Static => {
            assert(simd_reports(m, 0));
        },
        SimdModel::String(s) => {
            lemma_string_reports_exist(s);
            assert(simd_reports(m, (size_of::<u8>() * vstd::utf8::encode_utf8(s).len()) as nat));
        },
        SimdModel::Array(items) => {
            lemma_simd_item_totals_exist(items);
            let ts = choose|ts: Seq<nat>| simd_item_totals(items, ts);
            let capacity = items.len();
            assert(unused_fits(
                capacity as int,
                items.len() as int,
                size_of::<::simd_json::OwnedValue>() as int,
            ));
            let n = simd_array_size(items.len(), capacity, ts);
            assert(n == sum_of(ts));
            assert(simd_array_reports(items, n as nat));
            assert(simd_reports(m, n as nat));
        },
        SimdModel::Object(size, entries) => {
            lemma_simd_entry_sizes_exist(entries, 0);
            let (ks, vs) = choose|ks: Seq<nat>, vs: Seq<nat>| simd_entry_sizes(entries, 0, ks, vs);
            let p = |i: int| i;
            assert(is_index_permutation(p, entries.len()));
            assert forall|i: int| 0 <= i < entries.len() implies {
                &&& 0 <= p(i) < entries.len()
                &&& #[trigger] ks[i] >= key_offset(i)
                &&& string_reports(entries[p(i)].0, (ks[i] - key_offset(i)) as nat)
                &&& vs[i] >= value_offset(i)
                &&& simd_reports(entries[p(i)].1, (vs[i] - value_offset(i)) as nat)
            } by {
                assert(0 + i == i);
            }
            let capacity = entries.len();
            assert(unused_fits(
                capacity as int,
                entries.len() as int,
                (size_of::<String>() + size_of::<::simd_json::OwnedValue>()) as int,
            ));
            let n = simd_object_estimate(size, capacity, ks, vs);
            assert(object_free(capacity, ks.len()) == 0);
            assert(simd_object_reports(size, entries, n as nat));
            assert(simd_reports(m, n as nat));
        },
    }
}

/// Every sequence of values has item totals that it may report.
pub proof fn lemma_simd_item_totals_exist(items: Seq<SimdModel>)
    ensures
        exists|ts: Seq<nat>| simd_item_totals(items, ts),
    decreases items,
{
    if items.len() == 0 {
        assert(simd_item_totals(items, Seq::<nat>::empty()));
    } else {
        let init = items.drop_last();
        assert(decreases_to!(items => init));
        lemma_simd_item_totals_exist(init);
        let ts = choose|ts: Seq<nat>| simd_item_totals(init, ts);
        let last = items[items.len() - 1];
        lemma_simd_reports_exist(last);
        let e = choose|e: nat| simd_reports(last, e);
        let w = ts.push((size_of::<::simd_json::OwnedValue>() + e) as nat);
        assert forall|i: int| 0 <= i < items.len() implies #[trigger] w[i] >= size_of::<
            ::simd_json::OwnedValue,
        >() && simd_reports(items[i], (w[i] - size_of::<::simd_json::OwnedValue>()) as nat) by {
            if i < init.len() {
                assert(init[i] == items[i]);
                assert(ts[i] == w[i]);
            }
        }
        assert(simd_item_totals(items, w));
    }
}

/// Every sequence of entries from any position on has entry sizes that it may report.
pub proof fn lemma_simd_entry_sizes_exist(entries: Seq<(Seq<char>, SimdModel)>, start: int)
    ensures
        exists|ks: Seq<nat>, vs: Seq<nat>| simd_entry_sizes(entries, start, ks, vs),
    decreases entries,
{
    if entries.len() == 0 {
        assert(simd_entry_sizes(entries, start, Seq::<nat>::empty(), Seq::<nat>::empty()));
    } else {
        let init = entries.drop_last();
        assert(decreases_to!(entries => init));
        lemma_simd_entry_sizes_exist(init, start);
        let (ks, vs) = choose|ks: Seq<nat>, vs: Seq<nat>| simd_entry_sizes(init, start, ks, vs);
        let last = entries[entries.len() - 1];
        let at = start + entries.len() - 1;
        lemma_string_reports_exist(last.0);
        let k = (size_of::<u8>() * vstd::utf8::encode_utf8(last.0).len()) as nat;
        assert(decreases_to!(entries => last.1));
        lemma_simd_reports_exist(last.1);
        let e = choose|e: nat| simd_reports(last.1, e);
        let kw = ks.push((key_offset(at) + k) as nat);
        let vw = vs.push((value_offset(at) + e) as nat);
        assert forall|i: int| 0 <= i < entries.len() implies {
            &&& #[trigger] kw[i] >= key_offset(start + i)
            &&& string_reports(entries[i].0, (kw[i] - key_offset(start + i)) as nat)
            &&& vw[i] >= value_offset(start + i)
            &&& simd_reports(entries[i].1, (vw[i] - value_offset(start + i)) as nat)
        } by {
            if i < init.len() {
                assert(init[i] == entries[i]);
                assert(ks[i] == kw[i]);
                assert(vs[i] == vw[i]);
            }
        }
        assert(simd_entry_sizes(entries, start, kw, vw));
    }
}

/// A total reported for the item at `i`, added to totals reported for the items before it and
/// to `extra`, stays within any bound that holds for every complete set of item totals.
proof fn lemma_simd_item_prefix_bounded(
    items: Seq<SimdModel>,
    prefix: Seq<nat>,
    i: int,
    t: nat,
    extra: int,
)
    requires
        0 <= i < items.len(),
        extra >= 0,
        simd_item_totals(items.take(i), prefix),
        t >= size_of::<::simd_json::OwnedValue>(),
        simd_reports(items[i], (t - size_of::<::simd_json::OwnedValue>()) as nat),
        forall|ts: Seq<nat>| #[trigger]
            simd_item_totals(items, ts) ==> sum_of(ts) + extra <= usize::MAX,
    ensures
        sum_of(prefix) + t + extra <= usize::MAX,
{
    let rest_items = items.skip(i + 1);
    lemma_simd_item_totals_exist(rest_items);
    let rest = choose|r: Seq<nat>| simd_item_totals(rest_items, r);
    let head = prefix.push(t);
    let w = head + rest;
    assert forall|j: int| 0 <= j < items.len() implies #[trigger] w[j] >= size_of::<
        ::simd_json::OwnedValue,
    >() && simd_reports(items[j], (w[j] - size_of::<::simd_json::OwnedValue>()) as nat) by {
        if j < i {
            assert(items.take(i)[j] == items[j]);
            assert(prefix[j] == w[j]);
        } else if j > i {
            assert(rest_items[j - i - 1] == items[j]);
            assert(rest[j - i - 1] == w[j]);
        }
    }
    assert(simd_item_totals(items, w));
    lemma_sum_append(head, rest);
    lemma_sum_push(prefix, t);
}

/// Entry sizes reported for the entry at `i`, added to those reported for the entries before it
/// and to `extra`, stay within any bound that holds for every complete set of entry sizes.
proof fn lemma_simd_entry_prefix_bounded(
    entries: Seq<(Seq<char>, SimdModel)>,
    kp: Seq<nat>,
    vp: Seq<nat>,
    i: int,
    k: nat,
    v: nat,
    extra: int,
)
    requires
        0 <= i < entries.len(),
        extra >= 0,
        simd_entry_sizes(entries.take(i), 0, kp, vp),
        k >= key_offset(i),
        string_reports(entries[i].0, (k - key_offset(i)) as nat),
        v >= value_offset(i),
        simd_reports(entries[i].1, (v - value_offset(i)) as nat),
        forall|ks: Seq<nat>, vs: Seq<nat>| #[trigger]
            simd_entry_sizes(entries, 0, ks, vs) ==> sum_of(ks) + sum_of(vs) + extra
                <= usize::MAX,
    ensures
        sum_of(kp) + k + sum_of(vp) + v + extra <= usize::MAX,
{
    let rest_entries = entries.skip(i + 1);
    let start = i + 1;
    lemma_simd_entry_sizes_exist(rest_entries, start);
    let (kr, vr) = choose|ks: Seq<nat>, vs: Seq<nat>| simd_entry_sizes(rest_entries, start, ks, vs);
    let kw = kp.push(k) + kr;
    let vw = vp.push(v) + vr;
    assert forall|j: int| 0 <= j < entries.len() implies {
        &&& #[trigger] kw[j] >= key_offset(0 + j)
        &&& string_reports(entries[j].0, (kw[j] - key_offset(0 + j)) as nat)
        &&& vw[j] >= value_offset(0 + j)
        &&& simd_reports(entries[j].1, (vw[j] - value_offset(0 + j)) as nat)
    } by {
        if j < i {
            assert(entries.take(i)[j] == entries[j]);
            assert(kp[j] == kw[j]);
            assert(vp[j] == vw[j]);
        } else if j > i {
            assert(rest_entries[j - i - 1] == entries[j]);
            assert(kr[j - i - 1] == kw[j]);
            assert(vr[j - i - 1] == vw[j]);
            assert(i + 1 + (j - i - 1) == j);
        }
    }
    assert(simd_entry_sizes(entries, 0, kw, vw));
    lemma_sum_append(kp.push(k), kr);
    lemma_sum_push(kp, k);
    lemma_sum_append(vp.push(v), vr);
    lemma_sum_push(vp, v);
}

/// The extra size of an owned value: nothing for a static node, the buffer of a string, the
/// estimate of the `Vec` that an array holds, and for an object the size of its boxed map plus the
/// map's estimate.
pub fn simd_value_extra(v: &::simd_json::OwnedValue) -> (r: usize)
    requires
        forall|n: nat| #[trigger] simd_reports(simd_model(*v), n) ==> n <= usize::MAX,
    ensures
        simd_reports(simd_model(*v), r as nat),
    decreases simd_model(*v),
{
    match simd_value_parts(v) {
        SimdValueRef::Static(node) => node.extra_size(),
        SimdValueRef::String(s) => {
            proof {
                assert forall|n: nat| #[trigger] s.is_extra_size(n) implies n <= usize::MAX by {
                    assert(simd_reports(simd_model(*v), n));
                }
            }
            s.extra_size()
        },
        SimdValueRef::Array(items) => {
            let ghost ms = simd_models_of(items@);
            assert(simd_model(*v) == SimdModel::Array(ms));
            assert(decreases_to!(simd_model(*v) => simd_model(*v)->Array_0));
            proof {
                assert forall|n: nat| #[trigger] simd_array_reports(ms, n) implies n
                    <= usize::MAX by {
                    assert(simd_reports(simd_model(*v), n));
                }
            }
            simd_array_extra(items)
        },
        SimdValueRef::Object(o) => {
            let ghost es = simd_object_model(o);
            let ghost size = simd_object_size(o);
            assert(simd_model(*v) == SimdModel::Object(size, es));
            assert(decreases_to!(simd_model(*v) => simd_model(*v)->Object_1));
            proof {
                assert forall|n: nat| #[trigger] simd_object_reports(size, es, n) implies n
                    <= usize::MAX by {
                    assert(simd_reports(simd_model(*v), n));
                }
            }
            simd_object_extra(&o)
        },
    }
}

/// The extra size of a `Vec` of owned values: the total size of every item plus
/// `size_of::<OwnedValue>()` for every unused slot.
pub fn simd_array_extra(items: &Vec<::simd_json::OwnedValue>) -> (r: usize)
    requires
        forall|n: nat| #[trigger] simd_array_reports(simd_models_of(items@), n) ==> n <= usize::MAX,
    ensures
        simd_array_reports(simd_models_of(items@), r as nat),
    decreases simd_models_of(items@),
{
    let ghost ms = simd_models_of(items@);
    let ghost slot = size_of::<::simd_json::OwnedValue>();
    let capacity = vec_capacity(items);
    let len = items.len();
    proof {
        lemma_unused_fits(capacity as int, len as int, slot as int);
    }
    let ghost free: int = (capacity - len) * slot;
    proof {
        assert((capacity - len) * slot >= 0) by (nonlinear_arith)
            requires
                capacity >= len,
                slot >= 0,
        ;
        assert forall|ts: Seq<nat>| #[trigger] simd_item_totals(ms, ts) implies sum_of(ts) + free
            <= usize::MAX by {
            let n = simd_array_size(len as nat, capacity as nat, ts);
            assert(simd_array_reports(ms, n as nat));
        }
    }
    let mut total: usize = 0;
    let ghost mut ts: Seq<nat> = Seq::empty();
    let mut i: usize = 0;
    while i < len
        invariant
            i <= len,
            len == items@.len(),
            ms == simd_models_of(items@),
            ms.len() == len,
            slot == size_of::<::simd_json::OwnedValue>(),
            free >= 0,
            forall|ts: Seq<nat>| #[trigger]
                simd_item_totals(ms, ts) ==> sum_of(ts) + free <= usize::MAX,
            simd_item_totals(ms.take(i as int), ts),
            total == sum_of(ts),
        decreases len - i,
    {
        let item = &items[i];
        assert(ms[i as int] == simd_model(*item));
        proof {
            assert forall|n: nat| #[trigger] simd_reports(simd_model(*item), n) implies n
                <= usize::MAX by {
                lemma_simd_item_prefix_bounded(ms, ts, i as int, (slot + n) as nat, free);
            }
        }
        assert(decreases_to!(ms => ms[i as int]));
        let e = simd_value_extra(item);
        proof {
            lemma_simd_item_prefix_bounded(ms, ts, i as int, (slot + e) as nat, free);
            lemma_sum_push(ts, (slot + e) as nat);
        }
        total = total + core::mem::size_of::<::simd_json::OwnedValue>() + e;
        proof {
            let next = ts.push((slot + e) as nat);
            assert forall|j: int| 0 <= j < i + 1 implies #[trigger] next[j] >= slot
                && simd_reports(ms.take(i + 1)[j], (next[j] - slot) as nat) by {
                if j < i {
                    assert(ms.take(i as int)[j] == ms.take(i + 1)[j]);
                    assert(ts[j] == next[j]);
                }
            }
            assert(simd_item_totals(ms.take(i + 1), next));
            ts = next;
        }
        i = i + 1;
    }
    assert(ms.take(len as int) =~= ms);
    let unused = (capacity - len) * core::mem::size_of::<::simd_json::OwnedValue>();
    let r = total + unused;
    assert(r == simd_array_size(len as nat, capacity as nat, ts));
    assert(simd_array_reports(ms, r as nat));
    r
}

/// The extra size of an object's boxed map: the size of the map, the extra sizes of the keys and
/// values of its first [`inline_limit`] entries, the total sizes of those of the rest, and
/// `size_of::<String>() + size_of::<OwnedValue>()` for every slot past the leading ones of its
/// capacity that is not in use.
pub fn simd_object_extra(o: &SimdObject) -> (r: usize)
    requires
        forall|n: nat| #[trigger]
            simd_object_reports(simd_object_size(*o), simd_object_model(*o), n) ==> n
                <= usize::MAX,
    ensures
        simd_object_reports(simd_object_size(*o), simd_object_model(*o), r as nat),
    decreases simd_object_model(*o),
{
    let ghost es = simd_object_model(*o);
    let ghost pair = size_of::<String>() + size_of::<::simd_json::OwnedValue>();
    let size = simd_object_size_of(o);
    let entries = simd_object_entries(o);
    let read_capacity = simd_object_capacity(o);
    let len = entries.len();
    let ghost p = choose|p: spec_fn(int) -> int|
        is_index_permutation(p, len as nat) && forall|i: int|
            0 <= i < len ==> #[trigger] es[p(i)] == (entries@[i].0@, simd_model(*entries@[i].1));
    let ghost ws = permuted(es, p);
    assert forall|i: int| 0 <= i < len implies #[trigger] ws[i] == (
        entries@[i].0@,
        simd_model(*entries@[i].1),
    ) && ws[i] == es[p(i)] by {
        assert(0 <= p(i) < len);
        assert(es[p(i)] == (entries@[i].0@, simd_model(*entries@[i].1)));
    }
    // The map never reports a capacity below its length; the length stands in for such a
    // reading.
    let capacity = if read_capacity < len {
        len
    } else {
        read_capacity
    };
    proof {
        if read_capacity >= len {
            lemma_unused_fits(capacity as int, len as int, pair as int);
        } else {
            assert(unused_fits(capacity as int, len as int, pair as int));
        }
    }
    let ghost free = object_free(capacity as nat, len as nat);
    let ghost extra = size + free;
    proof {
        let a = sat_sub(capacity as nat, inline_limit());
        let b = sat_sub(len as nat, inline_limit());
        assert((a - b) * pair >= 0) by (nonlinear_arith)
            requires
                a >= b,
                pair >= 0,
        ;
        assert forall|ks: Seq<nat>, vs: Seq<nat>| #[trigger]
            simd_entry_sizes(ws, 0, ks, vs) implies sum_of(ks) + sum_of(vs) + extra
            <= usize::MAX by {
            let n = simd_object_estimate(size as nat, capacity as nat, ks, vs);
            assert forall|i: int| 0 <= i < es.len() implies {
                &&& 0 <= p(i) < es.len()
                &&& #[trigger] ks[i] >= key_offset(i)
                &&& string_reports(es[p(i)].0, (ks[i] - key_offset(i)) as nat)
                &&& vs[i] >= value_offset(i)
                &&& simd_reports(es[p(i)].1, (vs[i] - value_offset(i)) as nat)
            } by {
                assert(0 + i == i);
                assert(ws[i] == es[p(i)]);
            }
            assert(simd_object_reports(size as nat, es, n as nat));
        }
    }
    let mut total: usize = 0;
    let ghost mut kp: Seq<nat> = Seq::empty();
    let ghost mut vp: Seq<nat> = Seq::empty();
    let mut i: usize = 0;
    while i < len
        invariant
            i <= len,
            len == entries@.len(),
            es == simd_object_model(*o),
            es.len() == len,
            ws.len() == len,
            is_index_permutation(p, len as nat),
            forall|j: int|
                0 <= j < entries@.len() ==> #[trigger] ws[j] == (entries@[j].0@, simd_model(
                    *entries@[j].1,
                )) && ws[j] == es[p(j)],
            extra >= 0,
            forall|ks: Seq<nat>, vs: Seq<nat>| #[trigger]
                simd_entry_sizes(ws, 0, ks, vs) ==> sum_of(ks) + sum_of(vs) + extra
                    <= usize::MAX,
            simd_entry_sizes(ws.take(i as int), 0, kp, vp),
            total == sum_of(kp) + sum_of(vp),
        decreases len - i,
    {
        let (key, value) = entries[i];
        assert(ws[i as int] == (key@, simd_model(*value)));
        let ghost ko = key_offset(i as int);
        let ghost vo = value_offset(i as int);
        proof {
            assert forall|n: nat| #[trigger] key.is_extra_size(n) implies n <= usize::MAX by {
                lemma_simd_reports_exist(simd_model(*value));
                let e = choose|e: nat| simd_reports(simd_model(*value), e);
                lemma_simd_entry_prefix_bounded(
                    ws,
                    kp,
                    vp,
                    i as int,
                    (ko + n) as nat,
                    (vo + e) as nat,
                    extra,
                );
            }
        }
        let ek = key.extra_size();
        proof {
            assert forall|n: nat| #[trigger] simd_reports(simd_model(*value), n) implies n
                <= usize::MAX by {
                lemma_simd_entry_prefix_bounded(
                    ws,
                    kp,
                    vp,
                    i as int,
                    (ko + ek) as nat,
                    (vo + n) as nat,
                    extra,
                );
            }
        }
        let ghost at = p(i as int);
        assert(0 <= at < es.len());
        assert(es[at] == ws[i as int]);
        assert(decreases_to!(es => es[at]));
        assert(decreases_to!(es[at] => es[at].1));
        let ev = simd_value_extra(value);
        proof {
            lemma_simd_entry_prefix_bounded(
                ws,
                kp,
                vp,
                i as int,
                (ko + ek) as nat,
                (vo + ev) as nat,
                extra,
            );
            lemma_sum_push(kp, (ko + ek) as nat);
            lemma_sum_push(vp, (vo + ev) as nat);
        }
        if i < 32 {
            total = total + ek + ev;
        } else {
            total = total + (core::mem::size_of::<String>() + ek) + (core::mem::size_of::<
                ::simd_json::OwnedValue,
            >() + ev);
        }
        proof {
            let knext = kp.push((ko + ek) as nat);
            let vnext = vp.push((vo + ev) as nat);
            assert forall|j: int| 0 <= j < i + 1 implies {
                &&& #[trigger] knext[j] >= key_offset(0 + j)
                &&& string_reports(ws.take(i + 1)[j].0, (knext[j] - key_offset(0 + j)) as nat)
                &&& vnext[j] >= value_offset(0 + j)
                &&& simd_reports(ws.take(i + 1)[j].1, (vnext[j] - value_offset(0 + j)) as nat)
            } by {
                if j < i {
                    assert(ws.take(i as int)[j] == ws.take(i + 1)[j]);
                    assert(kp[j] == knext[j]);
                    assert(vp[j] == vnext[j]);
                }
            }
            assert(simd_entry_sizes(ws.take(i + 1), 0, knext, vnext));
            kp = knext;
            vp = vnext;
        }
        i = i + 1;
    }
    assert(ws.take(len as int) =~= ws);
    vstd::layout::layout_for_type_is_valid::<String>();
    vstd::layout::layout_for_type_is_valid::<::simd_json::OwnedValue>();
    let free_slots = capacity.saturating_sub(32) - len.saturating_sub(32);
    let unused = free_slots * (core::mem::size_of::<String>() + core::mem::size_of::<
        ::simd_json::OwnedValue,
    >());
    let r = size + total + unused;
    proof {
        assert(r == simd_object_estimate(size as nat, capacity as nat, kp, vp));
        assert forall|j: int| 0 <= j < es.len() implies {
            &&& 0 <= p(j) < es.len()
            &&& #[trigger] kp[j] >= key_offset(j)
            &&& string_reports(es[p(j)].0, (kp[j] - key_offset(j)) as nat)
            &&& vp[j] >= value_offset(j)
            &&& simd_reports(es[p(j)].1, (vp[j] - value_offset(j)) as nat)
        } by {
            assert(0 + j == j);
            assert(ws[j] == es[p(j)]);
        }
    }
    assert(simd_object_reports(size as nat, es, r as nat));
    r
}

impl TypeSize for ::simd_json::OwnedValue {
    /// The estimate of what the value holds: see [`simd_reports`].
    open spec fn is_extra_size(&self, n: nat) -> bool {
        simd_reports(simd_model(*self), n)
    }

    fn extra_size(&self) -> (r: usize) {
        proof {
            assert forall|n: nat| #[trigger] simd_reports(simd_model(*self), n) implies n
                <= usize::MAX by {
                assert(self.is_extra_size(n));
            }
        }
        simd_value_extra(self)
    }

    fn get_collection_item_count(&self) -> (r: Option<usize>) {
        None
    }

    fn get_size_details(&self) -> (r: Vec<Field>) {
        Vec::new()
    }
}

} // verus!
