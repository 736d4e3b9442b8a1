//! Stable ordering of items by a numeric key.

use vstd::prelude::*;
use vstd::set_lib::{lemma_int_range, lemma_len_subset, lemma_subset_equality, set_int_range};

verus! {

/// Whether the item at place `a` comes before the item at place `b`: by its
/// key, and between equal keys by its place.
pub open spec fn comes_before(keys: Seq<u64>, descending: bool, a: int, b: int) -> bool {
    if keys[a] == keys[b] {
        a < b
    } else if descending {
        keys[a] > keys[b]
    } else {
        keys[a] < keys[b]
    }
}

/// `order` lists the places `0..keys.len()`, each once, so that every item
/// comes before those listed after it.
pub open spec fn is_stable_order(keys: Seq<u64>, descending: bool, order: Seq<usize>) -> bool {
    &&& order.len() == keys.len()
    &&& forall|i: int| 0 <= i < order.len() ==> (#[trigger] order[i]) < keys.len()
    &&& forall|i: int, j: int|
        0 <= i < j < order.len() ==> comes_before(
            keys,
            descending,
            #[trigger] order[i] as int,
            #[trigger] order[j] as int,
        )
}

/// The stable order of the keys: rising by key, or falling, and between
/// equal keys the earlier place first. There is one only.
pub open spec fn stable_order_of(keys: Seq<u64>, descending: bool) -> Seq<usize> {
    choose|order: Seq<usize>| is_stable_order(keys, descending, order)
}

/// The items as `order` lists them.
pub open spec fn arranged<T>(items: Seq<T>, order: Seq<usize>) -> Seq<T> {
    Seq::new(order.len(), |i: int| items[order[i] as int])
}

/// The items in the stable order of their keys.
pub open spec fn ranked<T>(items: Seq<T>, keys: Seq<u64>, descending: bool) -> Seq<T> {
    arranged(items, stable_order_of(keys, descending))
}

/// `order` lists places below `limit`, in order.
pub open spec fn ordered_below(keys: Seq<u64>, descending: bool, order: Seq<usize>, limit: int) -> bool {
    &&& order.len() == limit
    &&& forall|i: int| 0 <= i < order.len() ==> (#[trigger] order[i]) < limit
    &&& forall|i: int, j: int|
        0 <= i < j < order.len() ==> comes_before(
            keys,
            descending,
            #[trigger] order[i] as int,
            #[trigger] order[j] as int,
        )
}

/// A stable order is a list without repetition.
pub proof fn lemma_stable_order_distinct(keys: Seq<u64>, descending: bool, order: Seq<usize>)
    requires
        is_stable_order(keys, descending, order),
    ensures
        forall|i: int, j: int|
            0 <= i < j < order.len() ==> (#[trigger] order[i]) != (#[trigger] order[j]),
{
    assert forall|i: int, j: int| 0 <= i < j < order.len() implies (#[trigger] order[i]) != (
    #[trigger] order[j]) by {
        assert(comes_before(keys, descending, order[i] as int, order[j] as int));
    }
}

/// A stable order lists every place.
pub proof fn lemma_stable_order_lists_all(
    keys: Seq<u64>,
    descending: bool,
    order: Seq<usize>,
    place: int,
)
    requires
        is_stable_order(keys, descending, order),
        0 <= place < keys.len(),
    ensures
        exists|i: int| 0 <= i < order.len() && #[trigger] order[i] == place,
{
    lemma_stable_order_distinct(keys, descending, order);
    let places = order.map_values(|p: usize| p as int);
    assert forall|i: int, j: int| 0 <= i < places.len() && 0 <= j < places.len() && i != j implies places[i]
        != places[j] by {
        if i < j {
            assert(order[i] != order[j]);
        } else {
            assert(order[j] != order[i]);
        }
    }
    places.unique_seq_to_set();
    let all = set_int_range(0, keys.len() as int);
    lemma_int_range(0, keys.len() as int);
    assert forall|p: int| places.to_set().contains(p) implies all.contains(p) by {
        let i = choose|i: int| 0 <= i < places.len() && places[i] == p;
        assert(order[i] < keys.len());
    }
    assert(places.to_set().subset_of(all));
    lemma_len_subset(places.to_set(), all);
    lemma_subset_equality(places.to_set(), all);
    assert(all.contains(place));
    assert(places.to_set().contains(place));
    let i = choose|i: int| 0 <= i < places.len() && places[i] == place;
    assert(order[i] == place);
}

/// Two stable orders of the same keys agree up to any place.
proof fn lemma_stable_orders_agree(
    keys: Seq<u64>,
    descending: bool,
    a: Seq<usize>,
    b: Seq<usize>,
    upto: int,
)
    requires
        is_stable_order(keys, descending, a),
        is_stable_order(keys, descending, b),
        0 <= upto <= keys.len(),
    ensures
        forall|m: int| 0 <= m < upto ==> a[m] == b[m],
    decreases upto,
{
    if upto > 0 {
        let k = upto - 1;
        lemma_stable_orders_agree(keys, descending, a, b, k);
        lemma_stable_order_distinct(keys, descending, a);
        lemma_stable_order_distinct(keys, descending, b);
        assert(a[k] < keys.len());
        assert(b[k] < keys.len());
        lemma_stable_order_lists_all(keys, descending, b, a[k] as int);
        lemma_stable_order_lists_all(keys, descending, a, b[k] as int);
        let j = choose|j: int| 0 <= j < b.len() && #[trigger] b[j] == a[k] as int;
        let i = choose|i: int| 0 <= i < a.len() && #[trigger] a[i] == b[k] as int;
        if j < k {
            assert(a[j] == b[j]);
            assert(a[j] != a[k]);
        }
        if i < k {
            assert(a[i] == b[i]);
            assert(b[i] != b[k]);
        }
        if j > k && i > k {
            assert(comes_before(keys, descending, b[k] as int, b[j] as int));
            assert(comes_before(keys, descending, a[k] as int, a[i] as int));
        }
        if j > k && i == k {
            assert(b[k] != b[j]);
        }
    }
}

/// The keys have one stable order only.
pub proof fn lemma_stable_order_unique(
    keys: Seq<u64>,
    descending: bool,
    a: Seq<usize>,
    b: Seq<usize>,
)
    requires
        is_stable_order(keys, descending, a),
        is_stable_order(keys, descending, b),
    ensures
        a == b,
{
    lemma_stable_orders_agree(keys, descending, a, b, keys.len() as int);
    assert(a =~= b);
}

fn key_before(keys: &Vec<u64>, descending: bool, a: usize, b: usize) -> (r: bool)
    requires
        a < keys.len(),
        b < keys.len(),
    ensures
        r == comes_before(keys@, descending, a as int, b as int),
{
    if keys[a] == keys[b] {
        a < b
    } else if descending {
        keys[a] > keys[b]
    } else {
        keys[a] < keys[b]
    }
}

/// The places of `keys` in stable order: ascending by key, or descending,
/// and between equal keys the earlier place first.
pub fn stable_order(keys: &Vec<u64>, descending: bool) -> (order: Vec<usize>)
    ensures
        is_stable_order(keys@, descending, order@),
        order@ == stable_order_of(keys@, descending),
{
    let mut order: Vec<usize> = Vec::new();
    let mut next: usize = 0;
    while next < keys.len()
        invariant
            next <= keys.len(),
            ordered_below(keys@, descending, order@, next as int),
        decreases keys.len() - next,
    {
        let mut at: usize = 0;
        while at < order.len() && key_before(keys, descending, order[at], next)
            invariant
                at <= order.len(),
                next < keys.len(),
                ordered_below(keys@, descending, order@, next as int),
                forall|i: int|
                    0 <= i < at ==> comes_before(
                        keys@,
                        descending,
                        #[trigger] order@[i] as int,
                        next as int,
                    ),
            decreases order.len() - at,
        {
            at = at + 1;
        }
        let ghost before = order@;
        order.insert(at, next);
        proof {
            let after = order@;
            assert(after == before.insert(at as int, next));
            assert forall|i: int| 0 <= i < after.len() implies (#[trigger] after[i]) < next
                + 1 by {
                if i < at {
                    assert(after[i] == before[i]);
                } else if i > at {
                    assert(after[i] == before[i - 1]);
                }
            }
            assert forall|i: int, j: int| 0 <= i < j < after.len() implies comes_before(
                keys@,
                descending,
                #[trigger] after[i] as int,
                #[trigger] after[j] as int,
            ) by {
                if j < at {
                    assert(after[i] == before[i] && after[j] == before[j]);
                } else if j == at {
                    assert(after[i] == before[i]);
                } else if i < at {
                    assert(after[i] == before[i] && after[j] == before[j - 1]);
                } else if i == at {
                    assert(after[j] == before[j - 1]);
                    assert(before[j - 1] < next);
                    if j - 1 > at {
                        assert(comes_before(
                            keys@,
                            descending,
                            before[at as int] as int,
                            before[j - 1] as int,
                        ));
                    }
                    assert(!comes_before(keys@, descending, before[at as int] as int, next as int));
                    assert(before[at as int] < next);
                } else {
                    assert(after[i] == before[i - 1] && after[j] == before[j - 1]);
                }
            }
        }
        next = next + 1;
    }
    proof {
        lemma_stable_order_unique(
            keys@,
            descending,
            order@,
            stable_order_of(keys@, descending),
        );
    }
    order
}

} // verus!
