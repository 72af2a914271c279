//! Spec vocabulary for reported sizes, shared by every implementation of [`TypeSize`].
use vstd::prelude::*;
use vstd::layout::size_of;

use crate::TypeSize;

verus! {

/// `n` is an extra size that `v` may report. A value whose implementation describes no extra
/// size at all is taken to report `0`, so that every value reports at least one.
pub open spec fn may_report<T: TypeSize>(v: &T, n: nat) -> bool {
    v.is_extra_size(n) || (n == 0 && forall|m: nat| !#[trigger] v.is_extra_size(m))
}

/// Every value reports at least one extra size.
pub proof fn lemma_may_report_exists<T: TypeSize>(v: &T)
    ensures
        exists|n: nat| may_report(v, n),
{
    if exists|m: nat| v.is_extra_size(m) {
        let m = choose|m: nat| v.is_extra_size(m);
        assert(may_report(v, m));
    } else {
        assert(may_report(v, 0));
    }
}

/// `n` is a total size that `v` may report: `size_of::<T>()` plus an extra size that `v` may report.
pub open spec fn is_total_size<T: TypeSize>(v: &T, n: nat) -> bool {
    n >= size_of::<T>() && may_report(v, (n - size_of::<T>()) as nat)
}

/// The unused slots of a buffer of `capacity` slots of `slot` bytes, `len` of them in use, take
/// at most `isize::MAX` bytes: no allocation is larger.
pub open spec fn unused_fits(capacity: int, len: int, slot: int) -> bool {
    len <= capacity && (capacity - len) * slot <= isize::MAX
}

/// A buffer whose whole allocation fits has unused slots that fit.
pub proof fn lemma_unused_fits(capacity: int, len: int, slot: int)
    by (nonlinear_arith)
    requires
        0 <= len <= capacity,
        0 <= slot,
        capacity * slot <= isize::MAX,
    ensures
        unused_fits(capacity, len, slot),
{
    assert((capacity - len) * slot <= capacity * slot);
}

/// The sum of a sequence of sizes.
pub open spec fn sum_of(s: Seq<nat>) -> nat
    decreases s.len(),
{
    if s.len() == 0 {
        0
    } else {
        sum_of(s.drop_last()) + s.last()
    }
}

/// `sizes[i]` is a total size that `items[i]` may report, for every index `i`.
pub open spec fn are_total_sizes<T: TypeSize>(items: Seq<T>, sizes: Seq<nat>) -> bool {
    &&& sizes.len() == items.len()
    &&& forall|i: int| 0 <= i < items.len() ==> #[trigger] is_total_size(&items[i], sizes[i])
}

/// `sizes[i]` is an extra size that `items[i]` may report, for every index `i`.
pub open spec fn are_extra_sizes<T: TypeSize>(items: Seq<T>, sizes: Seq<nat>) -> bool {
    &&& sizes.len() == items.len()
    &&& forall|i: int| 0 <= i < items.len() ==> #[trigger] may_report(&items[i], sizes[i])
}

/// `n` is a size that a buffer of `capacity` slots, of which `len` are in use and hold `items`,
/// may report: the total sizes of the items plus `size_of::<T>()` for every unused slot.
pub open spec fn is_buffer_extra_size<T: TypeSize>(
    items: Seq<T>,
    capacity: int,
    len: int,
    n: nat,
) -> bool {
    exists|s: Seq<nat>|
        #[trigger] are_total_sizes(items, s) && n == sum_of(s) + (capacity - len) * size_of::<T>()
}

/// The values behind a sequence of references.
pub open spec fn deref_all<T>(refs: Seq<&T>) -> Seq<T> {
    refs.map_values(|r: &T| *r)
}

pub proof fn lemma_deref_all_push<T>(refs: Seq<&T>, r: &T)
    ensures
        deref_all(refs.push(r)) == deref_all(refs).push(*r),
{
    assert(deref_all(refs.push(r)) =~= deref_all(refs).push(*r));
}

pub proof fn lemma_sum_push(s: Seq<nat>, x: nat)
    ensures
        sum_of(s.push(x)) == sum_of(s) + x,
{
    assert(s.push(x).drop_last() =~= s);
}

pub proof fn lemma_sum_append(a: Seq<nat>, b: Seq<nat>)
    ensures
        sum_of(a + b) == sum_of(a) + sum_of(b),
    decreases b.len(),
{
    if b.len() == 0 {
        assert(a + b =~= a);
    } else {
        lemma_sum_append(a, b.drop_last());
        assert((a + b).drop_last() =~= a + b.drop_last());
    }
}

/// Every sequence of values has total sizes that its items may report.
pub proof fn lemma_total_sizes_exist<T: TypeSize>(items: Seq<T>)
    ensures
        exists|s: Seq<nat>| are_total_sizes(items, s),
    decreases items.len(),
{
    if items.len() == 0 {
        assert(are_total_sizes(items, Seq::<nat>::empty()));
    } else {
        let init = items.drop_last();
        lemma_total_sizes_exist(init);
        let s = choose|s: Seq<nat>| are_total_sizes(init, s);
        lemma_may_report_exists(&items.last());
        let e = choose|e: nat| may_report(&items.last(), e);
        let g = (size_of::<T>() + e) as nat;
        let w = s.push(g);
        assert forall|i: int| 0 <= i < items.len() implies #[trigger] is_total_size(
            &items[i],
            w[i],
        ) by {
            if i < init.len() {
                assert(is_total_size(&init[i], s[i]));
            }
        }
        assert(are_total_sizes(items, w));
    }
}

/// Every sequence of values has extra sizes that its items may report.
pub proof fn lemma_extra_sizes_exist<T: TypeSize>(items: Seq<T>)
    ensures
        exists|s: Seq<nat>| are_extra_sizes(items, s),
    decreases items.len(),
{
    if items.len() == 0 {
        assert(are_extra_sizes(items, Seq::<nat>::empty()));
    } else {
        let init = items.drop_last();
        lemma_extra_sizes_exist(init);
        let s = choose|s: Seq<nat>| are_extra_sizes(init, s);
        lemma_may_report_exists(&items.last());
        let e = choose|e: nat| may_report(&items.last(), e);
        let w = s.push(e);
        assert forall|i: int| 0 <= i < items.len() implies #[trigger] may_report(&items[i], w[i]) by {
            if i < init.len() {
                assert(may_report(&init[i], s[i]));
            }
        }
        assert(are_extra_sizes(items, w));
    }
}

/// A total size reported for the item at `i`, added to sizes reported for the items before it and
/// to `extra`, stays within any bound that holds for every complete set of reported sizes.
pub proof fn lemma_prefix_total_bounded<T: TypeSize>(
    items: Seq<T>,
    prefix: Seq<nat>,
    i: int,
    g: nat,
    extra: int,
    bound: int,
)
    requires
        0 <= i < items.len(),
        extra >= 0,
        are_total_sizes(items.take(i), prefix),
        is_total_size(&items[i], g),
        forall|s: Seq<nat>| #[trigger] are_total_sizes(items, s) ==> sum_of(s) + extra <= bound,
    ensures
        sum_of(prefix) + g + extra <= bound,
{
    let rest_items = items.skip(i + 1);
    lemma_total_sizes_exist(rest_items);
    let rest = choose|r: Seq<nat>| are_total_sizes(rest_items, r);
    let head = prefix.push(g);
    let w = head + rest;
    assert forall|j: int| 0 <= j < items.len() implies #[trigger] is_total_size(&items[j], w[j]) by {
        if j < i {
            assert(items.take(i)[j] == items[j]);
            assert(is_total_size(&items.take(i)[j], prefix[j]));
        } else if j > i {
            assert(rest_items[j - i - 1] == items[j]);
            assert(is_total_size(&rest_items[j - i - 1], rest[j - i - 1]));
        }
    }
    assert(are_total_sizes(items, w));
    lemma_sum_append(head, rest);
    lemma_sum_push(prefix, g);
}

/// The extra-size counterpart of [`lemma_prefix_total_bounded`].
pub proof fn lemma_prefix_extra_bounded<T: TypeSize>(
    items: Seq<T>,
    prefix: Seq<nat>,
    i: int,
    e: nat,
    bound: int,
)
    requires
        0 <= i < items.len(),
        are_extra_sizes(items.take(i), prefix),
        may_report(&items[i], e),
        forall|s: Seq<nat>| #[trigger] are_extra_sizes(items, s) ==> sum_of(s) <= bound,
    ensures
        sum_of(prefix) + e <= bound,
{
    let rest_items = items.skip(i + 1);
    lemma_extra_sizes_exist(rest_items);
    let rest = choose|r: Seq<nat>| are_extra_sizes(rest_items, r);
    let head = prefix.push(e);
    let w = head + rest;
    assert forall|j: int| 0 <= j < items.len() implies #[trigger] may_report(&items[j], w[j]) by {
        if j < i {
            assert(items.take(i)[j] == items[j]);
            assert(may_report(&items.take(i)[j], prefix[j]));
        } else if j > i {
            assert(rest_items[j - i - 1] == items[j]);
            assert(may_report(&rest_items[j - i - 1], rest[j - i - 1]));
        }
    }
    assert(are_extra_sizes(items, w));
    lemma_sum_append(head, rest);
    lemma_sum_push(prefix, e);
}

} // verus!

verus! {

/// The sum of the total sizes of `items`.
pub fn sum_total_sizes<T: TypeSize>(items: &[T]) -> (r: usize)
    requires
        forall|s: Seq<nat>| #[trigger] are_total_sizes(items@, s) ==> sum_of(s) <= usize::MAX,
    ensures
        exists|s: Seq<nat>| #[trigger] are_total_sizes(items@, s) && r == sum_of(s),
{
    let mut total: usize = 0;
    let ghost mut sizes: Seq<nat> = Seq::empty();
    let mut i: usize = 0;
    while i < items.len()
        invariant
            i <= items@.len(),
            forall|s: Seq<nat>| #[trigger] are_total_sizes(items@, s) ==> sum_of(s) <= usize::MAX,
            are_total_sizes(items@.take(i as int), sizes),
            total == sum_of(sizes),
        decreases items@.len() - i,
    {
        let item = &items[i];
        proof {
            assert forall|n: nat| #[trigger] item.is_extra_size(n) implies size_of::<T>() + n
                <= usize::MAX by {
                lemma_prefix_total_bounded(
                    items@,
                    sizes,
                    i as int,
                    (size_of::<T>() + n) as nat,
                    0,
                    usize::MAX as int,
                );
            }
        }
        let g = item.get_size();
        proof {
            lemma_prefix_total_bounded(items@, sizes, i as int, g as nat, 0, usize::MAX as int);
            lemma_sum_push(sizes, g as nat);
        }
        total = total + g;
        proof {
            let next = sizes.push(g as nat);
            assert forall|j: int| 0 <= j < i + 1 implies #[trigger] is_total_size(
                &items@.take(i + 1)[j],
                next[j],
            ) by {
                if j < i {
                    assert(items@.take(i as int)[j] == items@.take(i + 1)[j]);
                    assert(is_total_size(&items@.take(i as int)[j], sizes[j]));
                }
            }
            sizes = next;
        }
        i = i + 1;
    }
    assert(items@.take(i as int) =~= items@);
    total
}

/// The sum of the extra sizes of `items`.
pub fn sum_extra_sizes<T: TypeSize>(items: &[T]) -> (r: usize)
    requires
        forall|s: Seq<nat>| #[trigger] are_extra_sizes(items@, s) ==> sum_of(s) <= usize::MAX,
    ensures
        exists|s: Seq<nat>| #[trigger] are_extra_sizes(items@, s) && r == sum_of(s),
{
    let mut total: usize = 0;
    let ghost mut sizes: Seq<nat> = Seq::empty();
    let mut i: usize = 0;
    while i < items.len()
        invariant
            i <= items@.len(),
            forall|s: Seq<nat>| #[trigger] are_extra_sizes(items@, s) ==> sum_of(s) <= usize::MAX,
            are_extra_sizes(items@.take(i as int), sizes),
            total == sum_of(sizes),
        decreases items@.len() - i,
    {
        let item = &items[i];
        assert(items@[i as int] == *item);
        let ghost bound = usize::MAX as int;
        proof {
            assert forall|n: nat| #[trigger] item.is_extra_size(n) implies n <= usize::MAX by {
                lemma_prefix_extra_bounded(items@, sizes, i as int, n, bound);
            }
        }
        let e = item.extra_size();
        proof {
            lemma_prefix_extra_bounded(items@, sizes, i as int, e as nat, bound);
            lemma_sum_push(sizes, e as nat);
        }
        total = total + e;
        proof {
            let next = sizes.push(e as nat);
            assert forall|j: int| 0 <= j < i + 1 implies #[trigger] may_report(&items@.take(i + 1)[j],
                next[j],
            ) by {
                if j < i {
                    assert(items@.take(i as int)[j] == items@.take(i + 1)[j]);
                    assert(may_report(&items@.take(i as int)[j], sizes[j]));
                }
            }
            sizes = next;
        }
        i = i + 1;
    }
    assert(items@.take(i as int) =~= items@);
    total
}

} // verus!
