//! Stable ordering of the sortable lists by a numeric field, ascending or
//! descending.

use vstd::prelude::*;
use crate::info::{ComponentInfo, ProcessInfo};

verus! {

/// Direction of a sort.
#[derive(Debug, Copy, Clone, PartialEq, Eq, Structural)]
pub enum SortOrder {
    Ascending,
    Descending,
}

/// How one key stands to another in a direction.
#[derive(Debug, Copy, Clone, PartialEq, Eq, Structural)]
pub enum Comparison {
    Less,
    Equal,
    Greater,
}

/// The field and direction by which the process list is ordered.
#[derive(Debug, Copy, Clone, PartialEq, Eq, Structural)]
pub enum SortByProcess {
    CpuUsage(SortOrder),
    MemoryUsage(SortOrder),
    SwapUsage(SortOrder),
    Runtime(SortOrder),
}

/// The field and direction by which the component list is ordered.
#[derive(Debug, Copy, Clone, PartialEq, Eq, Structural)]
pub enum SortByComponent {
    Temperature(SortOrder),
    Critical(SortOrder),
}

impl SortOrder {
    /// How `a` stands to `b`: by their values when ascending, by their
    /// values exchanged when descending.
    pub open spec fn compare(self, a: int, b: int) -> Comparison {
        let (x, y) = match self {
            SortOrder::Ascending => (a, b),
            SortOrder::Descending => (b, a),
        };
        if x < y {
            Comparison::Less
        } else if x == y {
            Comparison::Equal
        } else {
            Comparison::Greater
        }
    }

    /// An item with key `a` may stand before one with key `b`.
    pub open spec fn in_order(self, a: int, b: int) -> bool {
        match self {
            SortOrder::Ascending => a <= b,
            SortOrder::Descending => a >= b,
        }
    }

    /// Compares two keys in this direction.
    pub fn sort_by(&self, a: i128, b: i128) -> (c: Comparison)
        ensures
            c == self.compare(a as int, b as int),
            self.in_order(a as int, b as int) <==> c != Comparison::Greater,
    {
        let (x, y) = match self {
            SortOrder::Ascending => (a, b),
            SortOrder::Descending => (b, a),
        };
        if x < y {
            Comparison::Less
        } else if x == y {
            Comparison::Equal
        } else {
            Comparison::Greater
        }
    }
}

/// A field and a direction by which a list of `T` can be ordered.
pub trait SortSpec<T>: Sized {
    /// The direction of the sort.
    spec fn direction(&self) -> SortOrder;

    /// The number that stands for `item` in the selected field.
    spec fn key_of(&self, item: T) -> int;

    fn order(&self) -> (o: SortOrder)
        ensures
            o == self.direction(),
    ;

    fn key(&self, item: &T) -> (k: i128)
        ensures
            k == self.key_of(*item),
    ;
}

impl SortSpec<ProcessInfo> for SortByProcess {
    open spec fn direction(&self) -> SortOrder {
        match *self {
            SortByProcess::CpuUsage(o) => o,
            SortByProcess::MemoryUsage(o) => o,
            SortByProcess::SwapUsage(o) => o,
            SortByProcess::Runtime(o) => o,
        }
    }

    open spec fn key_of(&self, item: ProcessInfo) -> int {
        match *self {
            SortByProcess::CpuUsage(_) => item.cpu_usage.order_rank(),
            SortByProcess::MemoryUsage(_) => item.memory_usage as int,
            SortByProcess::SwapUsage(_) => item.swap_usage as int,
            SortByProcess::Runtime(_) => item.run_time as int,
        }
    }

    fn order(&self) -> (o: SortOrder) {
        match self {
            SortByProcess::CpuUsage(o) => *o,
            SortByProcess::MemoryUsage(o) => *o,
            SortByProcess::SwapUsage(o) => *o,
            SortByProcess::Runtime(o) => *o,
        }
    }

    fn key(&self, item: &ProcessInfo) -> (k: i128) {
        match self {
            SortByProcess::CpuUsage(_) => item.cpu_usage.rank() as i128,
            SortByProcess::MemoryUsage(_) => item.memory_usage as i128,
            SortByProcess::SwapUsage(_) => item.swap_usage as i128,
            SortByProcess::Runtime(_) => item.run_time as i128,
        }
    }
}

impl SortSpec<ComponentInfo> for SortByComponent {
    open spec fn direction(&self) -> SortOrder {
        match *self {
            SortByComponent::Temperature(o) => o,
            SortByComponent::Critical(o) => o,
        }
    }

    /// A component without a critical temperature is ordered as if it had
    /// one of zero.
    open spec fn key_of(&self, item: ComponentInfo) -> int {
        match *self {
            SortByComponent::Temperature(_) => item.temperature.order_rank(),
            SortByComponent::Critical(_) => match item.critical_temperature {
                Some(reading) => reading.order_rank(),
                None => 0,
            },
        }
    }

    fn order(&self) -> (o: SortOrder) {
        match self {
            SortByComponent::Temperature(o) => *o,
            SortByComponent::Critical(o) => *o,
        }
    }

    fn key(&self, item: &ComponentInfo) -> (k: i128) {
        match self {
            SortByComponent::Temperature(_) => item.temperature.rank() as i128,
            SortByComponent::Critical(_) => match &item.critical_temperature {
                Some(reading) => reading.rank() as i128,
                None => 0,
            },
        }
    }
}

/// The key function of a sort specification.
pub open spec fn key_fn<T, S: SortSpec<T>>(spec: S) -> spec_fn(T) -> int {
    |item: T| spec.key_of(item)
}

/// The test for having key `k`.
pub open spec fn has_key<T, K>(key: spec_fn(T) -> K, k: K) -> spec_fn(T) -> bool {
    |item: T| key(item) == k
}

/// Every item may stand before every later one.
pub open spec fn ordered<T>(items: Seq<T>, key: spec_fn(T) -> int, order: SortOrder) -> bool {
    forall|i: int, j: int|
        #![trigger items[i], items[j]]
        0 <= i < j < items.len() ==> order.in_order(key(items[i]), key(items[j]))
}

/// `after` is `before` in stable order: the keys run in the direction of
/// `order`, and for every key the items that have it are the same and in
/// the same relative order as they were.
pub open spec fn is_stable_sort<T>(
    before: Seq<T>,
    after: Seq<T>,
    key: spec_fn(T) -> int,
    order: SortOrder,
) -> bool {
    &&& after.len() == before.len()
    &&& ordered(after, key, order)
    &&& forall|k: int| #[trigger] after.filter(has_key(key, k)) == before.filter(has_key(key, k))
}

proof fn lemma_singleton_filter<T>(x: T, pred: spec_fn(T) -> bool)
    ensures
        seq![x].filter(pred) == if pred(x) {
            seq![x]
        } else {
            Seq::<T>::empty()
        },
{
    reveal_with_fuel(Seq::filter, 2);
    assert(seq![x].drop_last() =~= Seq::<T>::empty());
    assert(Seq::<T>::empty().push(x) =~= seq![x]);
}

proof fn lemma_no_match_filter<T>(s: Seq<T>, pred: spec_fn(T) -> bool)
    requires
        forall|t: int| 0 <= t < s.len() ==> !pred(#[trigger] s[t]),
    ensures
        s.filter(pred) == Seq::<T>::empty(),
    decreases s.len(),
{
    reveal(Seq::filter);
    if s.len() > 0 {
        lemma_no_match_filter(s.drop_last(), pred);
    }
    assert(s.filter(pred) =~= Seq::<T>::empty());
}

/// Moving the item at `i` forward to `j` keeps the filtered sequence, when
/// the item is not kept or none of the items it passes is.
pub(crate) proof fn lemma_move_keeps_filter<T>(s: Seq<T>, i: int, j: int, pred: spec_fn(T) -> bool)
    requires
        0 <= j <= i < s.len(),
        pred(s[i]) ==> forall|t: int| j <= t < i ==> !pred(#[trigger] s[t]),
    ensures
        s.remove(i).insert(j, s[i]).filter(pred) == s.filter(pred),
{
    let a = s.subrange(0, j);
    let b = s.subrange(j, i);
    let x = seq![s[i]];
    let c = s.subrange(i + 1, s.len() as int);
    assert(s =~= ((a + b) + x) + c);
    assert(s.remove(i).insert(j, s[i]) =~= ((a + x) + b) + c);
    Seq::filter_distributes_over_add((a + b) + x, c, pred);
    Seq::filter_distributes_over_add(a + b, x, pred);
    Seq::filter_distributes_over_add(a, b, pred);
    Seq::filter_distributes_over_add((a + x) + b, c, pred);
    Seq::filter_distributes_over_add(a + x, b, pred);
    Seq::filter_distributes_over_add(a, x, pred);
    lemma_singleton_filter(s[i], pred);
    if pred(s[i]) {
        assert forall|t: int| 0 <= t < b.len() implies !pred(#[trigger] b[t]) by {
            assert(b[t] == s[j + t]);
        }
        lemma_no_match_filter(b, pred);
    }
    assert((a.filter(pred) + b.filter(pred)) + x.filter(pred) =~= (a.filter(pred) + x.filter(pred))
        + b.filter(pred));
}

/// The sequence with the item at `i` moved forward to `j`.
pub open spec fn moved_forward<T>(s: Seq<T>, i: int, j: int) -> Seq<T> {
    if j < i {
        s.remove(i).insert(j, s[i])
    } else {
        s
    }
}

/// One step of the insertion: when the first `i` items are in order, the
/// items from `j` on have to stand after the item at `i`, and the item
/// before `j` may stand before it, then moving that item to `j` leaves
/// the first `i + 1` items in order and every class of equal keys as it
/// was.
proof fn lemma_insert_step<T>(s: Seq<T>, i: int, j: int, key: spec_fn(T) -> int, order: SortOrder)
    requires
        0 <= j <= i < s.len(),
        ordered(s.take(i), key, order),
        forall|t: int| j <= t < i ==> !order.in_order(key(#[trigger] s[t]), key(s[i])),
        j > 0 ==> order.in_order(key(s[j - 1]), key(s[i])),
    ensures
        ordered(moved_forward(s, i, j).take(i + 1), key, order),
        forall|k: int| #[trigger]
            moved_forward(s, i, j).filter(has_key(key, k)) == s.filter(has_key(key, k)),
{
    let moved = moved_forward(s, i, j);
    assert forall|k: int| #[trigger] moved.filter(has_key(key, k)) == s.filter(has_key(key, k)) by {
        if j < i {
            assert forall|t: int| j <= t < i && has_key(key, k)(s[i]) implies !has_key(key, k)(
                #[trigger] s[t],
            ) by {
                assert(!order.in_order(key(s[t]), key(s[i])));
            }
            lemma_move_keeps_filter(s, i, j, has_key(key, k));
        }
    }
    let sorted = moved.take(i + 1);
    let prefix = s.take(i);
    assert forall|p: int, q: int|
        #![trigger sorted[p], sorted[q]]
        0 <= p < q < sorted.len() implies order.in_order(key(sorted[p]), key(sorted[q])) by {
        let sp = if p < j { p } else if p == j { i } else { p - 1 };
        let sq = if q < j { q } else if q == j { i } else { q - 1 };
        assert(sorted[p] == s[sp]);
        assert(sorted[q] == s[sq]);
        if sp < i {
            assert(prefix[sp] == s[sp]);
        }
        if sq < i {
            assert(prefix[sq] == s[sq]);
        }
        if j > 0 {
            assert(prefix[j - 1] == s[j - 1]);
        }
        if p < j && q == j {
            if p < j - 1 {
                assert(order.in_order(key(prefix[p]), key(prefix[j - 1])));
            }
        } else if p == j {
            assert(!order.in_order(key(s[sq]), key(s[i])));
        } else {
            assert(order.in_order(key(prefix[sp]), key(prefix[sq])));
        }
    }
}

/// Orders `items` by the field and direction of `spec`. The sort is
/// stable: items with equal keys keep their relative order.
pub fn sort<T, S: SortSpec<T>>(items: &mut Vec<T>, spec: &S)
    ensures
        is_stable_sort(old(items)@, final(items)@, key_fn(*spec), spec.direction()),
        final(items)@ == sorted_by(old(items)@, key_fn(*spec), spec.direction()),
{
    let order = spec.order();
    let n = items.len();
    let ghost key = key_fn(*spec);
    let ghost before = items@;
    let mut i: usize = 0;
    proof {
        assert(ordered(items@.take(0), key, order));
    }
    while i < n
        invariant
            i <= n,
            items.len() == n,
            before.len() == n,
            key == key_fn(*spec),
            order == spec.direction(),
            ordered(items@.take(i as int), key, order),
            forall|k: int| #[trigger] items@.filter(has_key(key, k)) == before.filter(has_key(key, k)),
        decreases n - i,
    {
        let kx = spec.key(&items[i]);
        let ghost s = items@;
        assert(kx == key(s[i as int]));
        let mut j: usize = i;
        let mut searching = true;
        while searching && j > 0
            invariant
                j <= i < n,
                items@ == s,
                s.len() == n,
                key == key_fn(*spec),
                order == spec.direction(),
                kx == key(s[i as int]),
                forall|t: int| j <= t < i ==> !order.in_order(key(#[trigger] s[t]), kx as int),
                !searching ==> j > 0 && order.in_order(key(s[j - 1]), kx as int),
            decreases j + (if searching { 1int } else { 0int }),
        {
            let c = order.sort_by(spec.key(&items[j - 1]), kx);
            match c {
                Comparison::Greater => {
                    j = j - 1;
                },
                _ => {
                    searching = false;
                },
            }
        }
        if j < i {
            let x = items.remove(i);
            items.insert(j, x);
        }
        proof {
            assert(items@ =~= moved_forward(s, i as int, j as int));
            lemma_insert_step(s, i as int, j as int, key, order);
            assert forall|k: int| #[trigger]
                items@.filter(has_key(key, k)) == before.filter(has_key(key, k)) by {
                assert(s.filter(has_key(key, k)) == before.filter(has_key(key, k)));
            }
        }
        i = i + 1;
    }
    proof {
        assert(items@.take(n as int) =~= items@);
        lemma_sorted_by(before, items@, key, order);
    }
}

/// No two items have the same key.
pub open spec fn distinct_keys<T>(items: Seq<T>, key: spec_fn(T) -> int) -> bool {
    forall|i: int, j: int|
        #![trigger items[i], items[j]]
        0 <= i < j < items.len() ==> key(items[i]) != key(items[j])
}

impl SortOrder {
    /// The other direction.
    pub open spec fn reversed(self) -> SortOrder {
        match self {
            SortOrder::Ascending => SortOrder::Descending,
            SortOrder::Descending => SortOrder::Ascending,
        }
    }
}

proof fn lemma_filter_of_push<T>(s: Seq<T>, x: T, pred: spec_fn(T) -> bool)
    ensures
        s.push(x).filter(pred) == if pred(x) {
            s.filter(pred).push(x)
        } else {
            s.filter(pred)
        },
{
    reveal(Seq::filter);
    assert(s.push(x).drop_last() =~= s);
}

/// Every item may stand before every later one, by the keys and the
/// relation `le` between keys.
pub open spec fn ordered_by<T, K>(
    items: Seq<T>,
    key: spec_fn(T) -> K,
    le: spec_fn(K, K) -> bool,
) -> bool {
    forall|i: int, j: int|
        #![trigger items[i], items[j]]
        0 <= i < j < items.len() ==> le(key(items[i]), key(items[j]))
}

/// Two keys that may stand before each other are the same key.
pub open spec fn antisymmetric<K>(le: spec_fn(K, K) -> bool) -> bool {
    forall|x: K, y: K| #[trigger] le(x, y) && le(y, x) ==> x == y
}

/// Two ordered sequences that hold, for every key, the same items in the
/// same relative order are the same sequence.
pub proof fn lemma_order_determined<T, K>(
    a: Seq<T>,
    b: Seq<T>,
    key: spec_fn(T) -> K,
    le: spec_fn(K, K) -> bool,
)
    requires
        a.len() == b.len(),
        ordered_by(a, key, le),
        ordered_by(b, key, le),
        antisymmetric(le),
        forall|k: K| #[trigger] a.filter(has_key(key, k)) == b.filter(has_key(key, k)),
    ensures
        a == b,
    decreases a.len(),
{
    if a.len() == 0 {
        assert(a =~= b);
    } else {
        let x = a.last();
        let y = b.last();
        let a0 = a.drop_last();
        let b0 = b.drop_last();
        assert(a =~= a0.push(x));
        assert(b =~= b0.push(y));
        let kx = key(x);
        let ky = key(y);
        // The last key of either sequence occurs in the other, so the two
        // last keys bound each other.
        lemma_filter_of_push(a0, x, has_key(key, kx));
        lemma_filter_of_push(b0, y, has_key(key, ky));
        let in_b = a.filter(has_key(key, kx));
        assert(in_b.last() == x);
        assert(in_b.contains(x));
        b.lemma_filter_contains_rev(has_key(key, kx), x);
        let m = choose|m: int| 0 <= m < b.len() && b[m] == x;
        let in_a = b.filter(has_key(key, ky));
        assert(in_a.last() == y);
        assert(in_a.contains(y));
        a.lemma_filter_contains_rev(has_key(key, ky), y);
        let w = choose|w: int| 0 <= w < a.len() && a[w] == y;
        if m < b.len() - 1 {
            assert(le(key(b[m]), key(b[b.len() - 1])));
        }
        if w < a.len() - 1 {
            assert(le(key(a[w]), key(a[a.len() - 1])));
        }
        assert(le(kx, ky) && le(ky, kx) ==> kx == ky);
        assert(kx == ky);
        lemma_filter_of_push(b0, y, has_key(key, kx));
        assert(b.filter(has_key(key, kx)).last() == y);
        assert(x == y);
        assert forall|k: K| #[trigger]
            a0.filter(has_key(key, k)) == b0.filter(has_key(key, k)) by {
            lemma_filter_of_push(a0, x, has_key(key, k));
            lemma_filter_of_push(b0, y, has_key(key, k));
            assert(a.filter(has_key(key, k)) == b.filter(has_key(key, k)));
            if has_key(key, k)(x) {
                let fa = a0.filter(has_key(key, k));
                let fb = b0.filter(has_key(key, k));
                assert(fa.push(x).drop_last() =~= fa);
                assert(fb.push(x).drop_last() =~= fb);
            }
        }
        assert forall|i: int, j: int|
            #![trigger a0[i], a0[j]]
            0 <= i < j < a0.len() implies le(key(a0[i]), key(a0[j])) by {
            assert(a0[i] == a[i] && a0[j] == a[j]);
        }
        assert forall|i: int, j: int|
            #![trigger b0[i], b0[j]]
            0 <= i < j < b0.len() implies le(key(b0[i]), key(b0[j])) by {
            assert(b0[i] == b[i] && b0[j] == b[j]);
        }
        lemma_order_determined(a0, b0, key, le);
    }
}

/// The relation between keys that a direction stands for.
pub open spec fn le_of(order: SortOrder) -> spec_fn(int, int) -> bool {
    |a: int, b: int| order.in_order(a, b)
}

proof fn lemma_ordered_classes_determine<T>(
    a: Seq<T>,
    b: Seq<T>,
    key: spec_fn(T) -> int,
    order: SortOrder,
)
    requires
        a.len() == b.len(),
        ordered(a, key, order),
        ordered(b, key, order),
        forall|k: int| #[trigger] a.filter(has_key(key, k)) == b.filter(has_key(key, k)),
    ensures
        a == b,
{
    let le = le_of(order);
    assert forall|x: int, y: int| #[trigger] le(x, y) && le(y, x) implies x == y by {}
    assert(ordered_by(a, key, le)) by {
        assert forall|i: int, j: int|
            #![trigger a[i], a[j]]
            0 <= i < j < a.len() implies le(key(a[i]), key(a[j])) by {}
    }
    assert(ordered_by(b, key, le)) by {
        assert forall|i: int, j: int|
            #![trigger b[i], b[j]]
            0 <= i < j < b.len() implies le(key(b[i]), key(b[j])) by {}
    }
    lemma_order_determined(a, b, key, le);
}

/// When no two items share a key, the items with key `k` are the one item
/// that has it, or none.
proof fn lemma_distinct_class<T>(s: Seq<T>, key: spec_fn(T) -> int, k: int)
    requires
        distinct_keys(s, key),
    ensures
        forall|i: int|
            0 <= i < s.len() && key(#[trigger] s[i]) == k ==> s.filter(has_key(key, k)) == seq![
                s[i],
            ],
        (forall|i: int| 0 <= i < s.len() ==> key(#[trigger] s[i]) != k) ==> s.filter(
            has_key(key, k),
        ) == Seq::<T>::empty(),
    decreases s.len(),
{
    reveal(Seq::filter);
    if s.len() == 0 {
        assert(s.filter(has_key(key, k)) =~= Seq::<T>::empty());
    } else {
        let rest = s.drop_last();
        let x = s.last();
        assert forall|i: int, j: int|
            #![trigger rest[i], rest[j]]
            0 <= i < j < rest.len() implies key(rest[i]) != key(rest[j]) by {
            assert(rest[i] == s[i] && rest[j] == s[j]);
        }
        lemma_distinct_class(rest, key, k);
        if key(x) == k {
            assert forall|i: int| 0 <= i < rest.len() implies key(#[trigger] rest[i]) != k by {
                assert(rest[i] == s[i]);
                assert(key(s[i]) != key(s[s.len() - 1]));
            }
            assert(s.filter(has_key(key, k)) =~= seq![x]);
            assert forall|i: int| 0 <= i < s.len() && key(#[trigger] s[i]) == k implies s.filter(
                has_key(key, k),
            ) == seq![s[i]] by {
                if i < s.len() - 1 {
                    assert(key(s[i]) != key(s[s.len() - 1]));
                }
            }
        } else {
            assert(s.filter(has_key(key, k)) == rest.filter(has_key(key, k)));
            assert forall|i: int| 0 <= i < s.len() && key(#[trigger] s[i]) == k implies s.filter(
                has_key(key, k),
            ) == seq![s[i]] by {
                assert(rest[i] == s[i]);
            }
            if forall|i: int| 0 <= i < s.len() ==> key(#[trigger] s[i]) != k {
                assert forall|i: int| 0 <= i < rest.len() implies key(#[trigger] rest[i]) != k by {
                    assert(rest[i] == s[i]);
                }
            }
        }
    }
}

/// Two items of `s` with the same key make a class of at least two.
proof fn lemma_shared_key_class<T>(s: Seq<T>, key: spec_fn(T) -> int, i: int, j: int)
    requires
        0 <= i < j < s.len(),
        key(s[i]) == key(s[j]),
    ensures
        s.filter(has_key(key, key(s[i]))).len() >= 2,
    decreases s.len(),
{
    let pred = has_key(key, key(s[i]));
    let rest = s.drop_last();
    assert(s =~= rest.push(s.last()));
    lemma_filter_of_push(rest, s.last(), pred);
    if j == s.len() - 1 {
        assert(rest[i] == s[i]);
        rest.lemma_filter_contains(pred, i);
    } else {
        assert(rest[i] == s[i] && rest[j] == s[j]);
        lemma_shared_key_class(rest, key, i, j);
    }
}

/// A stable sort keeps the keys distinct.
proof fn lemma_sort_keeps_distinct<T>(
    before: Seq<T>,
    after: Seq<T>,
    key: spec_fn(T) -> int,
    order: SortOrder,
)
    requires
        is_stable_sort(before, after, key, order),
        distinct_keys(before, key),
    ensures
        distinct_keys(after, key),
{
    assert forall|i: int, j: int|
        #![trigger after[i], after[j]]
        0 <= i < j < after.len() implies key(after[i]) != key(after[j]) by {
        if key(after[i]) == key(after[j]) {
            let k = key(after[i]);
            lemma_shared_key_class(after, key, i, j);
            assert(after.filter(has_key(key, k)) == before.filter(has_key(key, k)));
            lemma_distinct_class(before, key, k);
            if exists|m: int| 0 <= m < before.len() && key(#[trigger] before[m]) == k {
                let m = choose|m: int| 0 <= m < before.len() && key(#[trigger] before[m]) == k;
                assert(before.filter(has_key(key, k)) == seq![before[m]]);
            }
        }
    }
}

/// The stable order of `items` by `key` in the direction of `order`.
pub open spec fn sorted_by<T>(items: Seq<T>, key: spec_fn(T) -> int, order: SortOrder) -> Seq<T> {
    choose|after: Seq<T>| is_stable_sort(items, after, key, order)
}

/// Where the item at `i` comes to stand among the items before it: the
/// least place from which on every item up to `i` has to stand after it.
pub open spec fn insert_point<T>(
    s: Seq<T>,
    i: int,
    j: int,
    key: spec_fn(T) -> int,
    order: SortOrder,
) -> int
    decreases j,
{
    if j <= 0 || order.in_order(key(s[j - 1]), key(s[i])) {
        j
    } else {
        insert_point(s, i, j - 1, key, order)
    }
}

proof fn lemma_insert_point<T>(s: Seq<T>, i: int, j: int, key: spec_fn(T) -> int, order: SortOrder)
    requires
        0 <= j <= i < s.len(),
        forall|t: int| j <= t < i ==> !order.in_order(key(#[trigger] s[t]), key(s[i])),
    ensures
        0 <= insert_point(s, i, j, key, order) <= j,
        forall|t: int|
            insert_point(s, i, j, key, order) <= t < i ==> !order.in_order(
                key(#[trigger] s[t]),
                key(s[i]),
            ),
        insert_point(s, i, j, key, order) > 0 ==> order.in_order(
            key(s[insert_point(s, i, j, key, order) - 1]),
            key(s[i]),
        ),
    decreases j,
{
    if j > 0 && !order.in_order(key(s[j - 1]), key(s[i])) {
        lemma_insert_point(s, i, j - 1, key, order);
    }
}

/// Every list has a stable order by every key in either direction, and
/// `sorted_by` is it.
pub proof fn lemma_stable_order_exists<T>(items: Seq<T>, key: spec_fn(T) -> int, order: SortOrder)
    ensures
        is_stable_sort(items, sorted_by(items, key, order), key, order),
    decreases items.len(),
{
    if items.len() == 0 {
        assert(is_stable_sort(items, items, key, order));
    } else {
        let x = items.last();
        let rest = items.drop_last();
        lemma_stable_order_exists(rest, key, order);
        let before = sorted_by(rest, key, order);
        let s = before.push(x);
        let i = before.len() as int;
        assert(s.take(i) =~= before);
        let j = insert_point(s, i, i, key, order);
        lemma_insert_point(s, i, i, key, order);
        lemma_insert_step(s, i, j, key, order);
        let after = moved_forward(s, i, j);
        assert(after.take(i + 1) =~= after);
        assert(items =~= rest.push(x));
        assert forall|k: int| #[trigger]
            after.filter(has_key(key, k)) == items.filter(has_key(key, k)) by {
            assert(after.filter(has_key(key, k)) == s.filter(has_key(key, k)));
            assert(before.filter(has_key(key, k)) == rest.filter(has_key(key, k)));
            lemma_filter_of_push(before, x, has_key(key, k));
            lemma_filter_of_push(rest, x, has_key(key, k));
        }
        assert(is_stable_sort(items, after, key, order));
    }
}

/// The contract of a sort leaves no choice: two results that both are the
/// stable order of the same list by the same field and direction are equal.
pub proof fn lemma_stable_sort_unique<T>(
    before: Seq<T>,
    first: Seq<T>,
    second: Seq<T>,
    key: spec_fn(T) -> int,
    order: SortOrder,
)
    requires
        is_stable_sort(before, first, key, order),
        is_stable_sort(before, second, key, order),
    ensures
        first == second,
{
    assert forall|k: int| #[trigger]
        first.filter(has_key(key, k)) == second.filter(has_key(key, k)) by {
        assert(first.filter(has_key(key, k)) == before.filter(has_key(key, k)));
        assert(second.filter(has_key(key, k)) == before.filter(has_key(key, k)));
    }
    lemma_ordered_classes_determine(first, second, key, order);
}

/// Whatever is a stable order of `items` is the stable order of `items`.
pub proof fn lemma_sorted_by<T>(
    items: Seq<T>,
    after: Seq<T>,
    key: spec_fn(T) -> int,
    order: SortOrder,
)
    requires
        is_stable_sort(items, after, key, order),
    ensures
        sorted_by(items, key, order) == after,
{
    lemma_stable_sort_unique(items, sorted_by(items, key, order), after, key, order);
}

/// Sorting a list that is already in order changes nothing.
pub proof fn lemma_sort_of_ordered<T>(
    before: Seq<T>,
    after: Seq<T>,
    key: spec_fn(T) -> int,
    order: SortOrder,
)
    requires
        ordered(before, key, order),
        is_stable_sort(before, after, key, order),
    ensures
        after == before,
{
    lemma_ordered_classes_determine(after, before, key, order);
}

/// Sorting by a field in one direction and then by the same field in the
/// other direction gives the exact reverse, when no two items share a key.
pub proof fn lemma_resort_reverses<T>(
    before: Seq<T>,
    first: Seq<T>,
    second: Seq<T>,
    key: spec_fn(T) -> int,
    order: SortOrder,
)
    requires
        distinct_keys(before, key),
        is_stable_sort(before, first, key, order),
        is_stable_sort(first, second, key, order.reversed()),
    ensures
        second == first.reverse(),
{
    let n = first.len() as int;
    let mirror = first.reverse();
    lemma_sort_keeps_distinct(before, first, key, order);
    assert(mirror.len() == n);
    assert forall|i: int| 0 <= i < n implies #[trigger] mirror[i] == first[n - 1 - i] by {}
    assert forall|i: int, j: int|
        #![trigger mirror[i], mirror[j]]
        0 <= i < j < mirror.len() implies order.reversed().in_order(
        key(mirror[i]),
        key(mirror[j]),
    ) by {
        assert(mirror[i] == first[n - 1 - i]);
        assert(mirror[j] == first[n - 1 - j]);
        assert(order.in_order(key(first[n - 1 - j]), key(first[n - 1 - i])));
    }
    assert forall|i: int, j: int|
        #![trigger mirror[i], mirror[j]]
        0 <= i < j < mirror.len() implies key(mirror[i]) != key(mirror[j]) by {
        assert(mirror[i] == first[n - 1 - i]);
        assert(mirror[j] == first[n - 1 - j]);
        assert(key(first[n - 1 - j]) != key(first[n - 1 - i]));
    }
    assert forall|k: int| #[trigger]
        mirror.filter(has_key(key, k)) == second.filter(has_key(key, k)) by {
        assert(second.filter(has_key(key, k)) == first.filter(has_key(key, k)));
        lemma_distinct_class(first, key, k);
        lemma_distinct_class(mirror, key, k);
        if exists|m: int| 0 <= m < n && key(#[trigger] first[m]) == k {
            let m = choose|m: int| 0 <= m < n && key(#[trigger] first[m]) == k;
            assert(mirror[n - 1 - m] == first[m]);
            assert(key(mirror[n - 1 - m]) == k);
        } else {
            assert forall|i: int| 0 <= i < mirror.len() implies key(#[trigger] mirror[i]) != k by {
                assert(mirror[i] == first[n - 1 - i]);
            }
        }
    }
    lemma_ordered_classes_determine(mirror, second, key, order.reversed());
}

/// Orders the process list.
pub fn sort_processes(processes: &mut Vec<ProcessInfo>, by: SortByProcess)
    ensures
        is_stable_sort(old(processes)@, final(processes)@, key_fn(by), by.direction()),
        final(processes)@ == sorted_by(old(processes)@, key_fn(by), by.direction()),
{
    sort(processes, &by)
}

/// Orders the component list.
pub fn sort_components(components: &mut Vec<ComponentInfo>, by: SortByComponent)
    ensures
        is_stable_sort(old(components)@, final(components)@, key_fn(by), by.direction()),
        final(components)@ == sorted_by(old(components)@, key_fn(by), by.direction()),
{
    sort(components, &by)
}

} // verus!
