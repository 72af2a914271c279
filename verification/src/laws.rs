//! Properties that relate the sizes reported by different implementations.
use std::cell::Cell;
use std::sync::atomic::AtomicUsize;
use std::collections::HashMap;
use vstd::prelude::*;
use vstd::layout::size_of;
use vstd::std_specs::hash::{builds_valid_hashers, obeys_key_model};
use vstd::utf8::encode_utf8;

use crate::derive::attrs::{attribute_views, field_config, AttributeView, ConfigView, DeriveError};
use crate::derive::{derive_bodies, derive_text};
use crate::derive::gen::{
    call_text, details_entry, extra_body, with_size_text, extra_term, field_terms, ident_of, struct_bodies,
    DataModel, DeriveInputModel, FieldModel, FieldStyle, FieldsModel, PassMode, TermKind,
};
use crate::derive::text::join;
use crate::ptr::{Borrowed, Owned, SizableArc, SizableRc};
use crate::map::{is_table_extra_size, keys_of, lists_entries, values_of};
use crate::sizes::{
    are_extra_sizes, are_total_sizes, is_buffer_extra_size, is_total_size, may_report, sum_of,
    unused_fits,
};
use crate::with::is_counted_size;
use crate::libs::serde_json::{
    array_reports, item_totals, json_map_model, json_model, json_reports, lemma_json_reports_exist,
    models_of, JsonModel,
};
use crate::libs::simd_json::{
    lemma_simd_reports_exist, simd_array_reports, simd_array_size, simd_item_totals, simd_model,
    simd_models_of, simd_reports, SimdModel,
};
use crate::vec::is_contiguous_extra_size;
use crate::TypeSize;

verus! {

/// A boxed slice reports the size that a vector with the same elements and no spare capacity
/// may report.
pub proof fn law_boxed_slice_is_exact_vec<T: TypeSize>(b: Box<[T]>, v: Vec<T>, n: nat)
    requires
        v@ == (*b)@,
        b.is_extra_size(n),
    ensures
        v.is_extra_size(n),
{
    let s = choose|s: Seq<nat>| #[trigger] are_total_sizes((*b)@, s) && n == sum_of(s);
    let len = v@.len();
    assert(is_buffer_extra_size(v@, len as int, len as int, n));
    assert(unused_fits(len as int, len as int, size_of::<T>() as int));
}

/// A boxed string reports the size that a `String` with the same text and no spare capacity
/// may report.
pub proof fn law_boxed_str_is_exact_string(b: Box<str>, s: String, n: nat)
    requires
        s@ == (*b)@,
        b.is_extra_size(n),
    ensures
        s.is_extra_size(n),
{
    let len = encode_utf8(s@).len();
    assert(unused_fits(len as int, len as int, 1));
    assert(n == size_of::<u8>() * len);
}

/// `Some(v)` reports what `v` reports, and `None` reports nothing beyond its own size.
pub proof fn law_option_reports_contents<T: TypeSize>(o: Option<T>, n: nat)
    ensures
        o.is_extra_size(n) <==> match o {
            Some(v) => v.is_extra_size(n),
            None => n == 0,
        },
{
}

/// A borrowed reference-counted pointer counts only the pointer, whatever it points to.
pub proof fn law_borrowed_counts_pointer_only<T>(
    rc: SizableRc<T, Borrowed>,
    arc: SizableArc<T, Borrowed>,
    n: nat,
)
    ensures
        rc.is_extra_size(n) <==> n == 0,
        arc.is_extra_size(n) <==> n == 0,
{
}

/// An owned `SizableRc` reports what `rc_size_with_inner` may return for the pointer it wraps:
/// the value's total size plus the two reference counts (a `Cell<usize>` has the layout of a
/// `usize`).
pub proof fn law_owned_rc_is_rc_size_with_inner<T: TypeSize>(rc: SizableRc<T, Owned>, n: nat)
    requires
        size_of::<Cell<usize>>() == size_of::<usize>(),
    ensures
        rc.is_extra_size(n) <==> (n >= size_of::<T>() + 2 * size_of::<usize>() && (*rc.0).is_extra_size(
            (n - size_of::<T>() - 2 * size_of::<usize>()) as nat,
        )),
{
}

/// An owned `SizableArc` reports what `arc_size_with_inner` may return for the pointer it
/// wraps: the value's total size plus the two reference counts (an `AtomicUsize` has the layout
/// of a `usize`).
pub proof fn law_owned_arc_is_arc_size_with_inner<T: TypeSize>(arc: SizableArc<T, Owned>, n: nat)
    requires
        size_of::<AtomicUsize>() == size_of::<usize>(),
    ensures
        arc.is_extra_size(n) <==> (n >= size_of::<T>() + 2 * size_of::<usize>()
            && (*arc.0).is_extra_size((n - size_of::<T>() - 2 * size_of::<usize>()) as nat)),
{
}

/// Owned reference-counted pointers to equal values report the same sizes whichever kind of
/// pointer holds them: an `Arc` and an `Rc` both report the value's total size plus the two
/// reference counts, as `arc_size_with_inner` and `rc_size_with_inner` return (an `AtomicUsize`
/// and a `Cell<usize>` have the layout of a `usize`).
pub proof fn law_arc_rc_same_sizes<T: TypeSize>(
    arc: SizableArc<T, Owned>,
    rc: SizableRc<T, Owned>,
    n: nat,
)
    requires
        *arc.0 == *rc.0,
        size_of::<AtomicUsize>() == size_of::<usize>(),
        size_of::<Cell<usize>>() == size_of::<usize>(),
    ensures
        arc.is_extra_size(n) <==> rc.is_extra_size(n),
        arc.is_extra_size(n) <==> is_counted_size(&*arc.0, n),
        is_counted_size(&*arc.0, n) <==> is_counted_size(&*rc.0, n),
{
}

/// A JSON value that holds an array reports what the `Vec` of values it holds reports.
pub proof fn law_json_array_is_vec(v: ::serde_json::Value, items: Vec<::serde_json::Value>, n: nat)
    requires
        json_model(v) == JsonModel::Array(models_of(items@)),
    ensures
        v.is_extra_size(n) <==> items.is_extra_size(n),
{
    let ms = models_of(items@);
    let slot = size_of::<::serde_json::Value>();
    if items.is_extra_size(n) {
        let capacity = choose|capacity: nat|
            unused_fits(capacity as int, items@.len() as int, slot as int)
                && #[trigger] is_buffer_extra_size(
                items@,
                capacity as int,
                items@.len() as int,
                n,
            );
        let s = choose|s: Seq<nat>|
            #[trigger] are_total_sizes(items@, s) && n == sum_of(s) + (capacity - items@.len())
                * slot;
        assert forall|i: int| 0 <= i < ms.len() implies #[trigger] s[i] >= slot && json_reports(
            ms[i],
            (s[i] - slot) as nat,
        ) by {
            assert(is_total_size(&items@[i], s[i]));
            assert(ms[i] == json_model(items@[i]));
            lemma_json_reports_exist(json_model(items@[i]));
            let e = choose|e: nat| json_reports(json_model(items@[i]), e);
            assert(items@[i].is_extra_size(e));
        }
        assert(item_totals(ms, s));
        assert(n == crate::libs::serde_json::array_size(ms.len(), capacity, s));
        assert(array_reports(ms, n));
        assert(json_reports(json_model(v), n));
    }
    if v.is_extra_size(n) {
        assert(array_reports(ms, n));
        let (capacity, ts) = choose|capacity: nat, ts: Seq<nat>|
            #[trigger] crate::libs::serde_json::array_size(ms.len(), capacity, ts) == n as int
                && unused_fits(capacity as int, ms.len() as int, slot as int) && item_totals(ms, ts);
        assert forall|i: int| 0 <= i < items@.len() implies #[trigger] is_total_size(
            &items@[i],
            ts[i],
        ) by {
            assert(ms[i] == json_model(items@[i]));
            assert(ts[i] >= slot && json_reports(ms[i], (ts[i] - slot) as nat));
        }
        assert(are_total_sizes(items@, ts));
        assert(is_buffer_extra_size(items@, capacity as int, items@.len() as int, n));
        assert(is_contiguous_extra_size(items@, n));
    }
}

/// An owned `simd_json` value that holds an array reports what the `Vec` of values it holds
/// reports.
pub proof fn law_simd_array_is_vec(
    v: ::simd_json::OwnedValue,
    items: Vec<::simd_json::OwnedValue>,
    n: nat,
)
    requires
        simd_model(v) == SimdModel::Array(simd_models_of(items@)),
    ensures
        v.is_extra_size(n) <==> items.is_extra_size(n),
{
    let ms = simd_models_of(items@);
    let slot = size_of::<::simd_json::OwnedValue>();
    if items.is_extra_size(n) {
        let capacity = choose|capacity: nat|
            unused_fits(capacity as int, items@.len() as int, slot as int)
                && #[trigger] is_buffer_extra_size(
                items@,
                capacity as int,
                items@.len() as int,
                n,
            );
        let s = choose|s: Seq<nat>|
            #[trigger] are_total_sizes(items@, s) && n == sum_of(s) + (capacity - items@.len())
                * slot;
        assert forall|i: int| 0 <= i < ms.len() implies #[trigger] s[i] >= slot && simd_reports(
            ms[i],
            (s[i] - slot) as nat,
        ) by {
            assert(is_total_size(&items@[i], s[i]));
            assert(ms[i] == simd_model(items@[i]));
            lemma_simd_reports_exist(simd_model(items@[i]));
            let e = choose|e: nat| simd_reports(simd_model(items@[i]), e);
            assert(items@[i].is_extra_size(e));
        }
        assert(simd_item_totals(ms, s));
        assert(n == simd_array_size(ms.len(), capacity, s));
        assert(simd_array_reports(ms, n));
        assert(simd_reports(simd_model(v), n));
    }
    if v.is_extra_size(n) {
        assert(simd_array_reports(ms, n));
        let (capacity, ts) = choose|capacity: nat, ts: Seq<nat>|
            #[trigger] simd_array_size(ms.len(), capacity, ts) == n as int
                && unused_fits(capacity as int, ms.len() as int, slot as int) && simd_item_totals(ms, ts);
        assert forall|i: int| 0 <= i < items@.len() implies #[trigger] is_total_size(
            &items@[i],
            ts[i],
        ) by {
            assert(ms[i] == simd_model(items@[i]));
            assert(ts[i] >= slot && simd_reports(ms[i], (ts[i] - slot) as nat));
        }
        assert(are_total_sizes(items@, ts));
        assert(is_buffer_extra_size(items@, capacity as int, items@.len() as int, n));
        assert(is_contiguous_extra_size(items@, n));
    }
}

/// A JSON value that holds an object reports what the map of values it holds reports.
pub proof fn law_json_object_is_map(
    v: ::serde_json::Value,
    m: ::serde_json::Map<String, ::serde_json::Value>,
    n: nat,
)
    requires
        json_model(v) == JsonModel::Object(json_map_model(m)),
    ensures
        v.is_extra_size(n) <==> m.is_extra_size(n),
{
}

/// `get_size` adds `size_of::<T>()` to the extra size: for a value that reports exactly one extra
/// size `e`, the totals that `get_size` may return are exactly `size_of::<T>() + e`.
pub proof fn law_get_size_adds_size_of<T: TypeSize>(x: T, e: nat, g: nat)
    requires
        x.is_extra_size(e),
        forall|m: nat| #[trigger] x.is_extra_size(m) ==> m == e,
    ensures
        (g >= size_of::<T>() && x.is_extra_size((g - size_of::<T>()) as nat)) <==> g == size_of::<
            T,
        >() + e,
{
}

/// The derived implementation is headed by the item's own generics and `where` clause, verbatim:
/// `impl` with the item's impl generics, `::typesize::TypeSize for` the type with its generics,
/// then the item's `where` clause, so that the bounds the item needs stay on the
/// implementation; the generated `extra_size` body follows right after the header.
pub proof fn law_derive_keeps_generics_and_where_clause(input: DeriveInputModel)
    ensures
        derive_text(input) is Ok ==> {
            let t = derive_text(input)->Ok_0;
            let head = "#[automatically_derived] impl"@ + input.impl_generics@
                + " ::typesize::TypeSize for "@ + input.ident@ + input.ty_generics@ + " "@
                + input.where_clause@ + " { fn extra_size(&self) -> usize { "@;
            let extra = derive_bodies(input)->Ok_0.0;
            &&& derive_bodies(input) is Ok
            &&& head.len() + extra.len() <= t.len()
            &&& t.subrange(0, head.len() as int) == head
            &&& t.subrange(head.len() as int, (head.len() + extra.len()) as int) == extra
        },
{
    if derive_text(input) is Ok {
        let t = derive_text(input)->Ok_0;
        let head = "#[automatically_derived] impl"@ + input.impl_generics@
            + " ::typesize::TypeSize for "@ + input.ident@ + input.ty_generics@ + " "@
            + input.where_clause@ + " { fn extra_size(&self) -> usize { "@;
        let (extra, details) = derive_bodies(input)->Ok_0;
        let details_text = match details {
            Some(d) => d,
            None => "Vec::new()"@,
        };
        let tail = " } fn get_collection_item_count(&self) -> Option<usize> { None } fn get_size_details(&self) -> Vec<::typesize::Field> { "@
            + details_text + " } }"@;
        assert(t =~= head + (extra + tail));
        assert((head + (extra + tail)).subrange(0, head.len() as int) =~= head);
        assert((head + (extra + tail)).subrange(head.len() as int, (head.len() + extra.len()) as int)
            =~= extra);
    }
}

/// The sum of `len` sizes that are all `k`.
proof fn lemma_sum_of_constant(s: Seq<nat>, k: nat)
    requires
        forall|i: int| 0 <= i < s.len() ==> s[i] == k,
    ensures
        sum_of(s) == s.len() * k,
    decreases s.len(),
{
    if s.len() > 0 {
        lemma_sum_of_constant(s.drop_last(), k);
        assert(sum_of(s) == sum_of(s.drop_last()) + k);
        assert((s.len() - 1) * k + k == s.len() * k) by (nonlinear_arith);
    }
}

/// A vector of values that hold no allocation reports `size_of::<T>()` for every slot of its
/// capacity, used or not.
pub proof fn law_vec_of_plain_values<T: TypeSize>(v: Vec<T>, n: nat)
    requires
        forall|x: T, e: nat| #[trigger] x.is_extra_size(e) ==> e == 0,
    ensures
        v.is_extra_size(n) <==> exists|capacity: nat|
            unused_fits(capacity as int, v@.len() as int, size_of::<T>() as int) && n == capacity
                * size_of::<T>(),
{
    let len = v@.len();
    let k = size_of::<T>();
    assert forall|s: Seq<nat>| #[trigger] are_total_sizes(v@, s) implies sum_of(s) == len * k by {
        assert forall|i: int| 0 <= i < s.len() implies s[i] == k by {
            assert(is_total_size(&v@[i], s[i]));
        }
        lemma_sum_of_constant(s, k);
    }
    if v.is_extra_size(n) {
        let capacity = choose|capacity: nat|
            unused_fits(capacity as int, len as int, k as int) && #[trigger] is_buffer_extra_size(
                v@,
                capacity as int,
                len as int,
                n,
            );
        let s = choose|s: Seq<nat>| #[trigger] are_total_sizes(v@, s) && n == sum_of(s) + (
        capacity - len) * k;
        assert(n == capacity * k) by (nonlinear_arith)
            requires
                n == len * k + (capacity - len) * k,
        ;
    }
    if exists|capacity: nat|
        unused_fits(capacity as int, len as int, k as int) && n == capacity * k {
        let capacity = choose|capacity: nat|
            unused_fits(capacity as int, len as int, k as int) && n == capacity * k;
        let s = Seq::new(len, |i: int| k);
        assert forall|i: int| 0 <= i < len implies #[trigger] is_total_size(&v@[i], s[i]) by {
            if exists|m: nat| v@[i].is_extra_size(m) {
                let m = choose|m: nat| v@[i].is_extra_size(m);
                assert(v@[i].is_extra_size(0));
            }
        }
        assert(are_total_sizes(v@, s));
        assert(n == len * k + (capacity - len) * k) by (nonlinear_arith)
            requires
                n == capacity * k,
        ;
        assert(is_buffer_extra_size(v@, capacity as int, len as int, n));
    }
}

/// An array of values that hold no allocation holds nothing beyond its own size.
pub proof fn law_array_of_plain_values<T: TypeSize, const N: usize>(a: [T; N], n: nat)
    requires
        forall|x: T, e: nat| #[trigger] x.is_extra_size(e) ==> e == 0,
    ensures
        a.is_extra_size(n) <==> n == 0,
{
    assert forall|s: Seq<nat>| #[trigger] are_extra_sizes(a@, s) implies sum_of(s) == 0 by {
        assert forall|i: int| 0 <= i < s.len() implies s[i] == 0 by {
            assert(may_report(&a@[i], s[i]));
        }
        lemma_sum_of_constant(s, 0);
    }
    if n == 0 {
        let s = Seq::new(a@.len(), |i: int| 0nat);
        assert forall|i: int| 0 <= i < a@.len() implies #[trigger] may_report(&a@[i], s[i]) by {
            if exists|m: nat| a@[i].is_extra_size(m) {
                let m = choose|m: nat| a@[i].is_extra_size(m);
                assert(a@[i].is_extra_size(0));
            }
        }
        assert(are_extra_sizes(a@, s));
        lemma_sum_of_constant(s, 0);
    }
}

/// A hash map of keys and values that hold no allocation reports
/// `size_of::<K>() + size_of::<V>()` for every slot of its capacity, used or not.
pub proof fn law_map_of_plain_values<K: TypeSize, V: TypeSize, S>(m: HashMap<K, V, S>, n: nat)
    requires
        forall|x: K, e: nat| #[trigger] x.is_extra_size(e) ==> e == 0,
        forall|x: V, e: nat| #[trigger] x.is_extra_size(e) ==> e == 0,
        m.is_extra_size(n),
    ensures
        exists|capacity: nat|
            capacity >= m.len() && #[trigger] (capacity * (size_of::<K>() + size_of::<V>())) == n,
{
    let len = m.len() as int;
    let slot = size_of::<K>() + size_of::<V>();
    let (entries, capacity) = choose|entries: Seq<(K, V)>, capacity: nat|
        {
            &&& m.len() <= capacity <= usize::MAX
            &&& entries.len() == m.len()
            &&& obeys_key_model::<K>() && builds_valid_hashers::<S>() && m@.dom().finite()
                ==> lists_entries(m@, entries)
            &&& #[trigger] is_table_extra_size(entries, capacity as int, m.len() as int, n)
        };
    let (ks, vs) = choose|ks: Seq<nat>, vs: Seq<nat>|
        #![trigger are_total_sizes(keys_of(entries), ks), are_total_sizes(values_of(entries), vs)]
        are_total_sizes(keys_of(entries), ks) && are_total_sizes(values_of(entries), vs) && n
            == sum_of(ks) + sum_of(vs) + (capacity - len) * slot;
    assert forall|i: int| 0 <= i < ks.len() implies ks[i] == size_of::<K>() by {
        assert(is_total_size(&keys_of(entries)[i], ks[i]));
    }
    assert forall|i: int| 0 <= i < vs.len() implies vs[i] == size_of::<V>() by {
        assert(is_total_size(&values_of(entries)[i], vs[i]));
    }
    lemma_sum_of_constant(ks, size_of::<K>());
    lemma_sum_of_constant(vs, size_of::<V>());
    assert(n == capacity * slot) by (nonlinear_arith)
        requires
            n == len * size_of::<K>() + len * size_of::<V>() + (capacity - len) * slot,
            slot == size_of::<K>() + size_of::<V>(),
    ;
}

/// The `extra_size` part of a named field without attributes: a call of `TypeSize::extra_size`
/// on a reference to the field.
pub open spec fn plain_field_term(f: FieldModel) -> Seq<char> {
    "::typesize::TypeSize::extra_size"@ + "(&"@ + ("self."@ + ident_of(f)) + ")"@
}

/// Fields without attributes are each sized by their own `TypeSize::extra_size`.
proof fn lemma_plain_field_terms(fs: Seq<FieldModel>)
    requires
        forall|i: int| 0 <= i < fs.len() ==> (#[trigger] fs[i]).attrs@.len() == 0,
    ensures
        field_terms(fs, true, FieldStyle::Struct, PassMode::InsertRef, TermKind::Extra) == Ok::<
            Seq<Seq<char>>,
            DeriveError,
        >(fs.map_values(|f: FieldModel| plain_field_term(f))),
    decreases fs.len(),
{
    if fs.len() == 0 {
        assert(fs.map_values(|f: FieldModel| plain_field_term(f)) =~= Seq::<Seq<char>>::empty());
    } else {
        lemma_plain_field_terms(fs.drop_last());
        assert(fs.last().attrs@.len() == 0);
        assert(attribute_views(fs.last().attrs@) =~= Seq::<AttributeView>::empty());
        assert(field_config(attribute_views(fs.last().attrs@)) == Ok::<ConfigView, DeriveError>(
            ConfigView::Default,
        ));
        assert(fs.map_values(|f: FieldModel| plain_field_term(f)) =~= fs.drop_last().map_values(
            |f: FieldModel| plain_field_term(f),
        ).push(plain_field_term(fs.last())));
    }
}

/// The derived `extra_size` of a struct with named fields and no attributes adds up the
/// `extra_size` of every field.
pub proof fn law_struct_adds_up_its_fields(fs: Vec<FieldModel>)
    requires
        fs@.len() > 0,
        forall|i: int| 0 <= i < fs@.len() ==> (#[trigger] fs@[i]).attrs@.len() == 0,
    ensures
        extra_body(FieldsModel::Named(fs), FieldStyle::Struct, PassMode::InsertRef) == Ok::<
            Seq<char>,
            DeriveError,
        >(join(fs@.map_values(|f: FieldModel| plain_field_term(f)), " + "@)),
{
    lemma_plain_field_terms(fs@);
}

/// The derive refuses unions.
pub proof fn law_union_is_refused(input: DeriveInputModel)
    requires
        input.data is Union,
    ensures
        derive_text(input) == Err::<Seq<char>, DeriveError>(DeriveError::UnionUnsupported),
{
}

/// A field marked `#[typesize(skip)]` adds nothing to `extra_size` and is described with a size
/// of `0` and no item count.
pub proof fn law_skipped_field_counts_nothing(name: Seq<char>, access: Seq<char>, mode: PassMode)
    ensures
        extra_term(ConfigView::Skip, access, mode) == "0"@,
        details_entry(ConfigView::Skip, name, access, mode) == "::typesize::Field { name: stringify!("@
            + name + "), size: "@ + "0"@ + ", collection_items: "@ + "None"@ + " }"@,
{
}

/// A field marked `#[typesize(with = f)]` is sized by a call of `f` on a reference to it, and is
/// described by its `size_of_val` plus that call, without any `TypeSize` call.
pub proof fn law_with_field_calls_function(
    name: Seq<char>,
    path: Seq<char>,
    access: Seq<char>,
    mode: PassMode,
)
    ensures
        extra_term(ConfigView::With(path), access, mode) == call_text(path, access, mode),
        details_entry(ConfigView::With(path), name, access, mode) == "::typesize::Field { name: stringify!("@
            + name + "), size: "@ + with_size_text(path, access, mode) + ", collection_items: "@
            + "None"@ + " }"@,
        mode is InsertRef ==> call_text(path, access, mode) == path + "(&"@ + access + ")"@,
{
}

/// A struct without fields reports no extra size and no field descriptions.
pub proof fn law_fieldless_struct_reports_nothing(fields: FieldsModel, is_packed: bool)
    requires
        match fields {
            FieldsModel::Named(fs) => fs@.len() == 0,
            FieldsModel::Unnamed(fs) => fs@.len() == 0,
            FieldsModel::Unit => true,
        },
    ensures
        struct_bodies(fields, is_packed) == Ok::<(Seq<char>, Seq<char>), DeriveError>(
            ("0_usize"@, "vec![]"@),
        ),
{
}

} // verus!
