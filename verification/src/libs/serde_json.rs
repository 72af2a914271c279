//! `serde_json`: numbers, values and maps of values.
//!
//! A value is estimated through what it holds, described by a [`JsonModel`]: a string by its
//! buffer, an array as a `Vec` of values and an object as a map of strings to values, each entry
//! counted by the total sizes of its key and value.
use vstd::prelude::*;
use vstd::layout::size_of;

use crate::sizes::{lemma_sum_append, lemma_sum_push, lemma_unused_fits, sum_of, unused_fits};
use crate::vec::{lemma_string_reports_exist, string_reports, vec_capacity};
use crate::{Field, TypeSize};

verus! {

/// `serde_json::Number`, carried as an opaque value.
#[verifier::external_type_specification]
#[verifier::external_body]
pub struct ExNumber(::serde_json::Number);

/// `serde_json::Value`, carried as an opaque value; [`json_value_parts`] tells its variants apart.
#[verifier::external_type_specification]
#[verifier::external_body]
pub struct ExJsonValue(::serde_json::Value);

/// `serde_json::Map`, carried as an opaque value.
#[verifier::external_type_specification]
#[verifier::external_body]
#[verifier::reject_recursive_types(K)]
#[verifier::reject_recursive_types(V)]
pub struct ExJsonMap<K, V>(::serde_json::Map<K, V>);

impl TypeSize for ::serde_json::Number {
    fn extra_size(&self) -> (r: usize) {
        0
    }

    fn get_collection_item_count(&self) -> (r: Option<usize>) {
        None
    }

    fn get_size_details(&self) -> (r: Vec<Field>) {
        Vec::new()
    }
}

/// What a JSON value holds, as far as its size depends on it: a string by its characters, an
/// array by its items in order, an object by its entries in key order.
pub enum JsonModel {
    Null,
    Bool(bool),
    Number,
    String(Seq<char>),
    Array(Seq<JsonModel>),
    Object(Seq<(Seq<char>, JsonModel)>),
}

/// The model of what a `serde_json::Value` holds. [`json_value_parts`] states it one level at a
/// time.
pub uninterp spec fn json_model(v: ::serde_json::Value) -> JsonModel;

/// The entries of a `serde_json::Map` of values, in the order in which the map walks them (that
/// of its keys), each key by its characters and each value by its model.
pub uninterp spec fn json_map_model(
    m: ::serde_json::Map<String, ::serde_json::Value>,
) -> Seq<(Seq<char>, JsonModel)>;

/// The models of a sequence of values.
pub open spec fn models_of(items: Seq<::serde_json::Value>) -> Seq<JsonModel> {
    items.map_values(|v: ::serde_json::Value| json_model(v))
}

/// A `serde_json::Value` taken apart, with references to what it holds.
pub enum JsonValueRef<'a> {
    Null,
    Bool(bool),
    Number(&'a ::serde_json::Number),
    String(&'a String),
    Array(&'a Vec<::serde_json::Value>),
    Object(&'a ::serde_json::Map<String, ::serde_json::Value>),
}

/// The model that the parts of a value make up.
pub open spec fn parts_model(p: JsonValueRef) -> JsonModel {
    match p {
        JsonValueRef::Null => JsonModel::Null,
        JsonValueRef::Bool(b) => JsonModel::Bool(b),
        JsonValueRef::Number(_) => JsonModel::Number,
        JsonValueRef::String(s) => JsonModel::String(s@),
        JsonValueRef::Array(items) => JsonModel::Array(models_of(items@)),
        JsonValueRef::Object(m) => JsonModel::Object(json_map_model(*m)),
    }
}

/// `serde_json::Value`'s variants, one arm each: the model of the value is the one that its
/// variant and the models of what that variant holds make up.
#[verifier::external_body]
fn json_value_parts(v: &::serde_json::Value) -> (r: JsonValueRef<'_>)
    ensures
        json_model(*v) == parts_model(r),
{
    match v {
        ::serde_json::Value::Null => JsonValueRef::Null,
        ::serde_json::Value::Bool(b) => JsonValueRef::Bool(*b),
        ::serde_json::Value::Number(x) => JsonValueRef::Number(x),
        ::serde_json::Value::String(s) => JsonValueRef::String(s),
        ::serde_json::Value::Array(items) => JsonValueRef::Array(items),
        ::serde_json::Value::Object(m) => JsonValueRef::Object(m),
    }
}

/// `Map::iter`, collected: the entries of the map in its order, as many as it holds.
#[verifier::external_body]
fn json_map_entries(m: &::serde_json::Map<String, ::serde_json::Value>) -> (r: Vec<
    (&String, &::serde_json::Value),
>)
    ensures
        r@.len() == json_map_model(*m).len(),
        forall|i: int|
            0 <= i < r@.len() ==> #[trigger] json_map_model(*m)[i] == (r@[i].0@, json_model(
                *r@[i].1,
            )),
{
    m.iter().collect()
}

/// `Map::len`: the number of entries.
#[verifier::external_body]
fn json_map_len(m: &::serde_json::Map<String, ::serde_json::Value>) -> (r: usize)
    ensures
        r == json_map_model(*m).len(),
{
    m.len()
}

/// The total sizes reported for an array's items: `ts[i]` is `size_of::<Value>()` plus an extra
/// size that the item of model `items[i]` may report.
pub open spec fn item_totals(items: Seq<JsonModel>, ts: Seq<nat>) -> bool {
    &&& ts.len() == items.len()
    &&& forall|i: int|
        0 <= i < items.len() ==> #[trigger] ts[i] >= size_of::<::serde_json::Value>() && json_reports(
            items[i],
            (ts[i] - size_of::<::serde_json::Value>()) as nat,
        )
}

/// The total sizes reported for an object's entries: `ks[i]` is `size_of::<String>()` plus an
/// extra size that the key of `entries[i]` may report, `vs[i]` the same for its value.
pub open spec fn entry_totals(entries: Seq<(Seq<char>, JsonModel)>, ks: Seq<nat>, vs: Seq<nat>) -> bool {
    &&& ks.len() == entries.len()
    &&& vs.len() == entries.len()
    &&& forall|i: int|
        0 <= i < entries.len() ==> {
            &&& #[trigger] ks[i] >= size_of::<String>()
            &&& string_reports(entries[i].0, (ks[i] - size_of::<String>()) as nat)
            &&& vs[i] >= size_of::<::serde_json::Value>()
            &&& json_reports(entries[i].1, (vs[i] - size_of::<::serde_json::Value>()) as nat)
        }
}

/// The extra size of an array of `len` items with item totals `ts` in a buffer of `capacity`
/// slots: the totals plus `size_of::<Value>()` for every unused slot.
pub open spec fn array_size(len: nat, capacity: nat, ts: Seq<nat>) -> int {
    sum_of(ts) + (capacity - len) * size_of::<::serde_json::Value>()
}

/// `n` is an extra size that a value of model `m` may report: nothing for a null, boolean or
/// number, the buffer of a string, and the estimates of a `Vec` of values or a map of values.
pub open spec fn json_reports(m: JsonModel, n: nat) -> bool
    decreases m,
{
    match m {
        JsonModel::String(s) => string_reports(s, n),
        JsonModel::Array(items) => array_reports(items, n),
        JsonModel::Object(entries) => object_reports(entries, n),
        _ => n == 0,
    }
}

/// `n` is an extra size that a `Vec` of values of models `items` may report: the total size of
/// every item plus `size_of::<Value>()` for every unused slot of a capacity of at least the
/// length, the unused slots fitting in one allocation.
pub open spec fn array_reports(items: Seq<JsonModel>, n: nat) -> bool
    decreases items,
{
    exists|capacity: nat, ts: Seq<nat>|
        #![trigger array_size(items.len(), capacity, ts)]
        {
            &&& unused_fits(
                capacity as int,
                items.len() as int,
                size_of::<::serde_json::Value>() as int,
            )
            &&& ts.len() == items.len()
            &&& forall|i: int|
                0 <= i < items.len() ==> #[trigger] ts[i] >= size_of::<::serde_json::Value>()
                    && json_reports(items[i], (ts[i] - size_of::<::serde_json::Value>()) as nat)
            &&& n == array_size(items.len(), capacity, ts)
        }
}

/// `n` is an extra size that a map of values with entries `entries` may report: the total size
/// of every key and value.
pub open spec fn object_reports(entries: Seq<(Seq<char>, JsonModel)>, n: nat) -> bool
    decreases entries,
{
    exists|ks: Seq<nat>, vs: Seq<nat>|
        #![trigger sum_of(ks), sum_of(vs)]
        {
            &&& ks.len() == entries.len()
            &&& vs.len() == entries.len()
            &&& forall|i: int|
                0 <= i < entries.len() ==> {
                    &&& #[trigger] ks[i] >= size_of::<String>()
                    &&& string_reports(entries[i].0, (ks[i] - size_of::<String>()) as nat)
                    &&& vs[i] >= size_of::<::serde_json::Value>()
                    &&& json_reports(
                        entries[i].1,
                        (vs[i] - size_of::<::serde_json::Value>()) as nat,
                    )
                }
            &&& n == sum_of(ks) + sum_of(vs)
        }
}

/// Every value reports at least one extra size.
pub proof fn lemma_json_reports_exist(m: JsonModel)
    ensures
        exists|n: nat| json_reports(m, n),
    decreases m,
{
    match m {
        JsonModel::String(s) => {
            lemma_string_reports_exist(s);
            assert(json_reports(m, (size_of::<u8>() * vstd::utf8::encode_utf8(s).len()) as nat));
        },
        JsonModel::Array(items) => {
            lemma_item_totals_exist(items);
            let ts = choose|ts: Seq<nat>| item_totals(items, ts);
            let capacity = items.len();
            assert(unused_fits(
                capacity as int,
                items.len() as int,
                size_of::<::serde_json::Value>() as int,
            ));
            let n = array_size(items.len(), capacity, ts);
            assert(n == sum_of(ts));
            assert(array_reports(items, n as nat));
            assert(json_reports(m, n as nat));
        },
        JsonModel::Object(entries) => {
            lemma_entry_totals_exist(entries);
            let (ks, vs) = choose|ks: Seq<nat>, vs: Seq<nat>| entry_totals(entries, ks, vs);
            assert(object_reports(entries, sum_of(ks) + sum_of(vs)));
            assert(json_reports(m, sum_of(ks) + sum_of(vs)));
        },
        _ => {
            assert(json_reports(m, 0));
        },
    }
}

/// Every sequence of values has item totals that it may report.
pub proof fn lemma_item_totals_exist(items: Seq<JsonModel>)
    ensures
        exists|ts: Seq<nat>| item_totals(items, ts),
    decreases items,
{
    if items.len() == 0 {
        assert(item_totals(items, Seq::<nat>::empty()));
    } else {
        let init = items.drop_last();
        assert(decreases_to!(items => init));
        lemma_item_totals_exist(init);
        let ts = choose|ts: Seq<nat>| item_totals(init, ts);
        let last = items[items.len() - 1];
        lemma_json_reports_exist(last);
        let e = choose|e: nat| json_reports(last, e);
        let w = ts.push((size_of::<::serde_json::Value>() + e) as nat);
        assert forall|i: int| 0 <= i < items.len() implies #[trigger] w[i] >= size_of::<
            ::serde_json::Value,
        >() && json_reports(items[i], (w[i] - size_of::<::serde_json::Value>()) as nat) by {
            if i < init.len() {
                assert(init[i] == items[i]);
                assert(ts[i] == w[i]);
            }
        }
        assert(item_totals(items, w));
    }
}

/// Every sequence of entries has key and value totals that it may report.
pub proof fn lemma_entry_totals_exist(entries: Seq<(Seq<char>, JsonModel)>)
    ensures
        exists|ks: Seq<nat>, vs: Seq<nat>| entry_totals(entries, ks, vs),
    decreases entries,
{
    if entries.len() == 0 {
        assert(entry_totals(entries, Seq::<nat>::empty(), Seq::<nat>::empty()));
    } else {
        let init = entries.drop_last();
        assert(decreases_to!(entries => init));
        lemma_entry_totals_exist(init);
        let (ks, vs) = choose|ks: Seq<nat>, vs: Seq<nat>| entry_totals(init, ks, vs);
        let last = entries[entries.len() - 1];
        lemma_string_reports_exist(last.0);
        let k = (size_of::<u8>() * vstd::utf8::encode_utf8(last.0).len()) as nat;
        assert(decreases_to!(entries => last.1));
        lemma_json_reports_exist(last.1);
        let e = choose|e: nat| json_reports(last.1, e);
        let kw = ks.push((size_of::<String>() + k) as nat);
        let vw = vs.push((size_of::<::serde_json::Value>() + e) as nat);
        assert forall|i: int| 0 <= i < entries.len() implies {
            &&& #[trigger] kw[i] >= size_of::<String>()
            &&& string_reports(entries[i].0, (kw[i] - size_of::<String>()) as nat)
            &&& vw[i] >= size_of::<::serde_json::Value>()
            &&& json_reports(entries[i].1, (vw[i] - size_of::<::serde_json::Value>()) as nat)
        } by {
            if i < init.len() {
                assert(init[i] == entries[i]);
                assert(ks[i] == kw[i]);
                assert(vs[i] == vw[i]);
            }
        }
        assert(entry_totals(entries, kw, vw));
    }
}

/// A total reported for the item at `i`, added to totals reported for the items before it and
/// to `extra`, stays within any bound that holds for every complete set of item totals.
proof fn lemma_item_prefix_bounded(
    items: Seq<JsonModel>,
    prefix: Seq<nat>,
    i: int,
    t: nat,
    extra: int,
)
    requires
        0 <= i < items.len(),
        extra >= 0,
        item_totals(items.take(i), prefix),
        t >= size_of::<::serde_json::Value>(),
        json_reports(items[i], (t - size_of::<::serde_json::Value>()) as nat),
        forall|ts: Seq<nat>| #[trigger] item_totals(items, ts) ==> sum_of(ts) + extra <= usize::MAX,
    ensures
        sum_of(prefix) + t + extra <= usize::MAX,
{
    let rest_items = items.skip(i + 1);
    lemma_item_totals_exist(rest_items);
    let rest = choose|r: Seq<nat>| item_totals(rest_items, r);
    let head = prefix.push(t);
    let w = head + rest;
    assert forall|j: int| 0 <= j < items.len() implies #[trigger] w[j] >= size_of::<
        ::serde_json::Value,
    >() && json_reports(items[j], (w[j] - size_of::<::serde_json::Value>()) as nat) by {
        if j < i {
            assert(items.take(i)[j] == items[j]);
            assert(prefix[j] == w[j]);
        } else if j > i {
            assert(rest_items[j - i - 1] == items[j]);
            assert(rest[j - i - 1] == w[j]);
        }
    }
    assert(item_totals(items, w));
    lemma_sum_append(head, rest);
    lemma_sum_push(prefix, t);
}

/// The entry counterpart of [`lemma_item_prefix_bounded`].
proof fn lemma_entry_prefix_bounded(
    entries: Seq<(Seq<char>, JsonModel)>,
    kp: Seq<nat>,
    vp: Seq<nat>,
    i: int,
    k: nat,
    v: nat,
)
    requires
        0 <= i < entries.len(),
        entry_totals(entries.take(i), kp, vp),
        k >= size_of::<String>(),
        string_reports(entries[i].0, (k - size_of::<String>()) as nat),
        v >= size_of::<::serde_json::Value>(),
        json_reports(entries[i].1, (v - size_of::<::serde_json::Value>()) as nat),
        forall|ks: Seq<nat>, vs: Seq<nat>|
            #[trigger] entry_totals(entries, ks, vs) ==> sum_of(ks) + sum_of(vs) <= usize::MAX,
    ensures
        sum_of(kp) + k + sum_of(vp) + v <= usize::MAX,
{
    let rest_entries = entries.skip(i + 1);
    lemma_entry_totals_exist(rest_entries);
    let (kr, vr) = choose|ks: Seq<nat>, vs: Seq<nat>| entry_totals(rest_entries, ks, vs);
    let kw = kp.push(k) + kr;
    let vw = vp.push(v) + vr;
    assert forall|j: int| 0 <= j < entries.len() implies {
        &&& #[trigger] kw[j] >= size_of::<String>()
        &&& string_reports(entries[j].0, (kw[j] - size_of::<String>()) as nat)
        &&& vw[j] >= size_of::<::serde_json::Value>()
        &&& json_reports(entries[j].1, (vw[j] - size_of::<::serde_json::Value>()) as nat)
    } by {
        if j < i {
            assert(entries.take(i)[j] == entries[j]);
            assert(kp[j] == kw[j]);
            assert(vp[j] == vw[j]);
        } else if j > i {
            assert(rest_entries[j - i - 1] == entries[j]);
            assert(kr[j - i - 1] == kw[j]);
            assert(vr[j - i - 1] == vw[j]);
        }
    }
    assert(entry_totals(entries, kw, vw));
    lemma_sum_append(kp.push(k), kr);
    lemma_sum_push(kp, k);
    lemma_sum_append(vp.push(v), vr);
    lemma_sum_push(vp, v);
}

/// The extra size of a value: nothing for a null, boolean or number, the buffer of a string, and
/// the estimates of the `Vec` or map that an array or object holds.
pub fn json_value_extra(v: &::serde_json::Value) -> (r: usize)
    requires
        forall|n: nat| #[trigger] json_reports(json_model(*v), n) ==> n <= usize::MAX,
    ensures
        json_reports(json_model(*v), r as nat),
    decreases json_model(*v),
{
    match json_value_parts(v) {
        JsonValueRef::Null => 0,
        JsonValueRef::Bool(b) => b.extra_size(),
        JsonValueRef::Number(x) => x.extra_size(),
        JsonValueRef::String(s) => {
            proof {
                assert forall|n: nat| #[trigger] s.is_extra_size(n) implies n <= usize::MAX by {
                    assert(json_reports(json_model(*v), n));
                }
            }
            s.extra_size()
        },
        JsonValueRef::Array(items) => {
            let ghost ms = models_of(items@);
            assert(json_model(*v) == JsonModel::Array(ms));
            assert(decreases_to!(json_model(*v) => json_model(*v)->Array_0));
            proof {
                assert forall|n: nat| #[trigger] array_reports(ms, n) implies n <= usize::MAX by {
                    assert(json_reports(json_model(*v), n));
                }
            }
            json_array_extra(items)
        },
        JsonValueRef::Object(m) => {
            let ghost es = json_map_model(*m);
            assert(json_model(*v) == JsonModel::Object(es));
            assert(decreases_to!(json_model(*v) => json_model(*v)->Object_0));
            proof {
                assert forall|n: nat| #[trigger] object_reports(es, n) implies n <= usize::MAX by {
                    assert(json_reports(json_model(*v), n));
                }
            }
            json_object_extra(m)
        },
    }
}

/// The extra size of a `Vec` of values: the total size of every item plus `size_of::<Value>()`
/// for every unused slot.
pub fn json_array_extra(items: &Vec<::serde_json::Value>) -> (r: usize)
    requires
        forall|n: nat| #[trigger] array_reports(models_of(items@), n) ==> n <= usize::MAX,
    ensures
        array_reports(models_of(items@), r as nat),
    decreases models_of(items@),
{
    let ghost ms = models_of(items@);
    let ghost slot = size_of::<::serde_json::Value>();
    let capacity = vec_capacity(items);
    let len = items.len();
    proof {
        lemma_unused_fits(capacity as int, len as int, slot as int);
    }
    let ghost free: int = (capacity - len) * slot;
    proof {
        assert((capacity - len) * slot >= 0) by (nonlinear_arith)
            requires
                capacity >= len,
                slot >= 0,
        ;
        assert forall|ts: Seq<nat>| #[trigger] item_totals(ms, ts) implies sum_of(ts) + free
            <= usize::MAX by {
            let n = array_size(len as nat, capacity as nat, ts);
            assert(array_reports(ms, n as nat));
        }
    }
    let mut total: usize = 0;
    let ghost mut ts: Seq<nat> = Seq::empty();
    let mut i: usize = 0;
    while i < len
        invariant
            i <= len,
            len == items@.len(),
            ms == models_of(items@),
            ms.len() == len,
            slot == size_of::<::serde_json::Value>(),
            free >= 0,
            forall|ts: Seq<nat>| #[trigger] item_totals(ms, ts) ==> sum_of(ts) + free <= usize::MAX,
            item_totals(ms.take(i as int), ts),
            total == sum_of(ts),
        decreases len - i,
    {
        let item = &items[i];
        assert(ms[i as int] == json_model(*item));
        proof {
            assert forall|n: nat| #[trigger] json_reports(json_model(*item), n) implies n
                <= usize::MAX by {
                lemma_item_prefix_bounded(ms, ts, i as int, (slot + n) as nat, free);
            }
        }
        assert(decreases_to!(ms => ms[i as int]));
        let e = json_value_extra(item);
        proof {
            lemma_item_prefix_bounded(ms, ts, i as int, (slot + e) as nat, free);
            lemma_sum_push(ts, (slot + e) as nat);
        }
        total = total + core::mem::size_of::<::serde_json::Value>() + e;
        proof {
            let next = ts.push((slot + e) as nat);
            assert forall|j: int| 0 <= j < i + 1 implies #[trigger] next[j] >= slot
                && json_reports(ms.take(i + 1)[j], (next[j] - slot) as nat) by {
                if j < i {
                    assert(ms.take(i as int)[j] == ms.take(i + 1)[j]);
                    assert(ts[j] == next[j]);
                }
            }
            assert(item_totals(ms.take(i + 1), next));
            ts = next;
        }
        i = i + 1;
    }
    assert(ms.take(len as int) =~= ms);
    let unused = (capacity - len) * core::mem::size_of::<::serde_json::Value>();
    let r = total + unused;
    assert(r == array_size(len as nat, capacity as nat, ts));
    assert(array_reports(ms, r as nat));
    r
}

/// The extra size of a map of values: the total size of every key and value.
pub fn json_object_extra(m: &::serde_json::Map<String, ::serde_json::Value>) -> (r: usize)
    requires
        forall|n: nat| #[trigger] object_reports(json_map_model(*m), n) ==> n <= usize::MAX,
    ensures
        object_reports(json_map_model(*m), r as nat),
    decreases json_map_model(*m),
{
    let ghost es = json_map_model(*m);
    let ghost key_slot = size_of::<String>();
    let ghost value_slot = size_of::<::serde_json::Value>();
    let entries = json_map_entries(m);
    proof {
        assert forall|ks: Seq<nat>, vs: Seq<nat>| #[trigger] entry_totals(es, ks, vs) implies sum_of(
            ks,
        ) + sum_of(vs) <= usize::MAX by {
            assert(object_reports(es, sum_of(ks) + sum_of(vs)));
        }
    }
    let mut total: usize = 0;
    let ghost mut kp: Seq<nat> = Seq::empty();
    let ghost mut vp: Seq<nat> = Seq::empty();
    let mut i: usize = 0;
    while i < entries.len()
        invariant
            i <= entries@.len(),
            es == json_map_model(*m),
            entries@.len() == es.len(),
            forall|j: int|
                0 <= j < entries@.len() ==> #[trigger] es[j] == (entries@[j].0@, json_model(
                    *entries@[j].1,
                )),
            key_slot == size_of::<String>(),
            value_slot == size_of::<::serde_json::Value>(),
            forall|ks: Seq<nat>, vs: Seq<nat>|
                #[trigger] entry_totals(es, ks, vs) ==> sum_of(ks) + sum_of(vs) <= usize::MAX,
            entry_totals(es.take(i as int), kp, vp),
            total == sum_of(kp) + sum_of(vp),
        decreases entries@.len() - i,
    {
        let (key, value) = entries[i];
        assert(es[i as int] == (key@, json_model(*value)));
        proof {
            assert forall|n: nat| #[trigger] key.is_extra_size(n) implies n <= usize::MAX by {
                lemma_json_reports_exist(json_model(*value));
                let e = choose|e: nat| json_reports(json_model(*value), e);
                lemma_entry_prefix_bounded(
                    es,
                    kp,
                    vp,
                    i as int,
                    (key_slot + n) as nat,
                    (value_slot + e) as nat,
                );
            }
        }
        let ek = key.extra_size();
        proof {
            assert forall|n: nat| #[trigger] json_reports(json_model(*value), n) implies n
                <= usize::MAX by {
                lemma_entry_prefix_bounded(
                    es,
                    kp,
                    vp,
                    i as int,
                    (key_slot + ek) as nat,
                    (value_slot + n) as nat,
                );
            }
        }
        assert(decreases_to!(es => es[i as int]));
        assert(decreases_to!(es[i as int] => es[i as int].1));
        let ev = json_value_extra(value);
        proof {
            lemma_entry_prefix_bounded(
                es,
                kp,
                vp,
                i as int,
                (key_slot + ek) as nat,
                (value_slot + ev) as nat,
            );
            lemma_sum_push(kp, (key_slot + ek) as nat);
            lemma_sum_push(vp, (value_slot + ev) as nat);
        }
        total = total + (core::mem::size_of::<String>() + ek) + (core::mem::size_of::<
            ::serde_json::Value,
        >() + ev);
        proof {
            let knext = kp.push((key_slot + ek) as nat);
            let vnext = vp.push((value_slot + ev) as nat);
            assert forall|j: int| 0 <= j < i + 1 implies {
                &&& #[trigger] knext[j] >= key_slot
                &&& string_reports(es.take(i + 1)[j].0, (knext[j] - key_slot) as nat)
                &&& vnext[j] >= value_slot
                &&& json_reports(es.take(i + 1)[j].1, (vnext[j] - value_slot) as nat)
            } by {
                if j < i {
                    assert(es.take(i as int)[j] == es.take(i + 1)[j]);
                    assert(kp[j] == knext[j]);
                    assert(vp[j] == vnext[j]);
                }
            }
            assert(entry_totals(es.take(i + 1), knext, vnext));
            kp = knext;
            vp = vnext;
        }
        i = i + 1;
    }
    assert(es.take(i as int) =~= es);
    assert(object_reports(es, total as nat));
    total
}

impl TypeSize for ::serde_json::Value {
    /// The estimate of what the value holds: see [`json_reports`].
    open spec fn is_extra_size(&self, n: nat) -> bool {
        json_reports(json_model(*self), n)
    }

    fn extra_size(&self) -> (r: usize) {
        proof {
            assert forall|n: nat| #[trigger] json_reports(json_model(*self), n) implies n
                <= usize::MAX by {
                assert(self.is_extra_size(n));
            }
        }
        json_value_extra(self)
    }

    fn get_collection_item_count(&self) -> (r: Option<usize>) {
        None
    }

    fn get_size_details(&self) -> (r: Vec<Field>) {
        Vec::new()
    }
}

impl TypeSize for ::serde_json::Map<String, ::serde_json::Value> {
    /// The total size of every key and value: see [`object_reports`].
    open spec fn is_extra_size(&self, n: nat) -> bool {
        object_reports(json_map_model(*self), n)
    }

    open spec fn is_item_count(&self, c: Option<usize>) -> bool {
        c == Some(json_map_model(*self).len() as usize)
    }

    fn extra_size(&self) -> (r: usize) {
        proof {
            assert forall|n: nat| #[trigger] object_reports(json_map_model(*self), n) implies n
                <= usize::MAX by {
                assert(self.is_extra_size(n));
            }
        }
        json_object_extra(self)
    }

    fn get_collection_item_count(&self) -> (r: Option<usize>) {
        Some(json_map_len(self))
    }

    fn get_size_details(&self) -> (r: Vec<Field>) {
        Vec::new()
    }
}

} // verus!
