//! The order in which items are taken when they are sorted by a key and
//! items with equal keys keep the order they came in.

use vstd::prelude::*;

verus! {

/// Whether the item at position `a` comes before the item at position `b`:
/// it has the smaller key, or the same key and the earlier position.
pub open spec fn before(keys: Seq<u32>, a: int, b: int) -> bool {
    keys[a] < keys[b] || (keys[a] == keys[b] && a < b)
}

/// Whether position `x` occurs in `order`.
pub open spec fn occurs(order: Seq<usize>, x: int) -> bool {
    exists|i: int| 0 <= i < order.len() && order[i] == x
}

/// Whether `order` lists the positions of `keys` as a stable sort takes
/// them: each position once, each before all that follow it.
pub open spec fn is_ranking(order: Seq<usize>, keys: Seq<u32>) -> bool {
    &&& order.len() == keys.len()
    &&& forall|i: int| 0 <= i < order.len() ==> 0 <= #[trigger] order[i] < keys.len()
    &&& forall|i: int, j: int|
        0 <= i < j < order.len() ==> before(keys, #[trigger] order[i] as int, #[trigger] order[j] as int)
    &&& forall|x: int| 0 <= x < keys.len() ==> occurs(order, x)
}

/// The positions of `keys` in the order of their keys, positions with
/// equal keys in ascending order.
pub open spec fn ranking(keys: Seq<u32>) -> Seq<usize> {
    choose|order: Seq<usize>| is_ranking(order, keys)
}

proof fn lemma_rankings_agree_upto(a: Seq<usize>, b: Seq<usize>, keys: Seq<u32>, upto: int)
    requires
        is_ranking(a, keys),
        is_ranking(b, keys),
        0 <= upto <= keys.len(),
    ensures
        forall|i: int| 0 <= i < upto ==> a[i] == b[i],
    decreases upto,
{
    if upto > 0 {
        lemma_rankings_agree_upto(a, b, keys, upto - 1);
        let at = upto - 1;
        let x = a[at] as int;
        let y = b[at] as int;
        if x != y {
            if before(keys, x, y) {
                assert(occurs(b, x));
                let j = choose|j: int| 0 <= j < b.len() && b[j] == x;
                if j < at {
                    assert(a[j] == b[j]);
                    assert(before(keys, a[j] as int, a[at] as int));
                } else {
                    assert(before(keys, b[at] as int, b[j] as int));
                }
            } else {
                assert(before(keys, y, x));
                assert(occurs(a, y));
                let j = choose|j: int| 0 <= j < a.len() && a[j] == y;
                if j < at {
                    assert(a[j] == b[j]);
                    assert(before(keys, b[j] as int, b[at] as int));
                } else {
                    assert(before(keys, a[at] as int, a[j] as int));
                }
            }
        }
    }
}

/// There is one way to take the items in order, and no other.
pub proof fn lemma_ranking_is_unique(a: Seq<usize>, b: Seq<usize>, keys: Seq<u32>)
    requires
        is_ranking(a, keys),
        is_ranking(b, keys),
    ensures
        a == b,
{
    lemma_rankings_agree_upto(a, b, keys, keys.len() as int);
    assert(a =~= b);
}

/// The place at which a new item with the key `key` goes into `order`:
/// behind all items whose key is not greater.
proof fn lemma_slot(order: Seq<usize>, keys: Seq<u32>, key: u32, upto: int) -> (slot: int)
    requires
        0 <= upto <= order.len(),
        forall|i: int| 0 <= i < order.len() ==> 0 <= #[trigger] order[i] < keys.len(),
        forall|i: int, j: int|
            0 <= i < j < order.len() ==> before(keys, #[trigger] order[i] as int, #[trigger] order[j] as int),
    ensures
        0 <= slot <= upto,
        forall|i: int| 0 <= i < slot ==> keys[#[trigger] order[i] as int] <= key,
        forall|i: int| slot <= i < upto ==> keys[#[trigger] order[i] as int] > key,
    decreases upto,
{
    if upto == 0 {
        0
    } else if keys[order[upto - 1] as int] <= key {
        assert forall|i: int| 0 <= i < upto implies keys[#[trigger] order[i] as int] <= key by {
            if i < upto - 1 {
                assert(before(keys, order[i] as int, order[upto - 1] as int));
            }
        }
        upto
    } else {
        lemma_slot(order, keys, key, upto - 1)
    }
}

/// Whatever the keys, there is a way to take the items in order, and
/// `ranking` is it.
pub proof fn lemma_ranking_exists(keys: Seq<u32>)
    requires
        keys.len() <= usize::MAX,
    ensures
        is_ranking(ranking(keys), keys),
    decreases keys.len(),
{
    if keys.len() == 0 {
        assert(is_ranking(Seq::<usize>::empty(), keys));
    } else {
        let rest = keys.drop_last();
        lemma_ranking_exists(rest);
        let old_order = ranking(rest);
        let next = (keys.len() - 1) as usize;
        assert forall|i: int, j: int| 0 <= i < j < old_order.len() implies before(
            keys,
            #[trigger] old_order[i] as int,
            #[trigger] old_order[j] as int,
        ) by {
            assert(before(rest, old_order[i] as int, old_order[j] as int));
        }
        let slot = lemma_slot(old_order, keys, keys[next as int], old_order.len() as int);
        let order = old_order.insert(slot, next);
        assert forall|i: int, j: int| 0 <= i < j < order.len() implies before(
            keys,
            #[trigger] order[i] as int,
            #[trigger] order[j] as int,
        ) by {
            if j < slot {
                assert(order[i] == old_order[i] && order[j] == old_order[j]);
            } else if j == slot {
                assert(order[i] == old_order[i]);
            } else if i < slot {
                assert(order[i] == old_order[i] && order[j] == old_order[j - 1]);
            } else if i == slot {
                assert(order[j] == old_order[j - 1]);
            } else {
                assert(order[i] == old_order[i - 1] && order[j] == old_order[j - 1]);
            }
        }
        assert forall|x: int| 0 <= x < keys.len() implies occurs(order, x) by {
            if x == next {
                assert(order[slot] == x);
            } else {
                assert(occurs(old_order, x));
                let i = choose|i: int| 0 <= i < old_order.len() && old_order[i] == x;
                if i < slot {
                    assert(order[i] == x);
                } else {
                    assert(order[i + 1] == x);
                }
            }
        }
        assert forall|i: int| 0 <= i < order.len() implies 0 <= #[trigger] order[i] < keys.len() by {
            if i < slot {
                assert(order[i] == old_order[i]);
            } else if i > slot {
                assert(order[i] == old_order[i - 1]);
            }
        }
        assert(is_ranking(order, keys));
    }
}

/// Fewer than two items are in order as they are, whatever their keys.
pub proof fn lemma_ranking_of_few(keys: Seq<u32>)
    requires
        keys.len() <= 1,
    ensures
        ranking(keys) == Seq::new(keys.len(), |i: int| i as usize),
        is_ranking(ranking(keys), keys),
{
    let same = Seq::new(keys.len(), |i: int| i as usize);
    assert(is_ranking(same, keys)) by {
        if keys.len() == 1 {
            assert(same[0] == 0);
            assert(occurs(same, 0));
        }
    }
    lemma_ranking_is_unique(same, ranking(keys), keys);
}

/// The ranking takes the keys in ascending order.
pub proof fn lemma_ranking_ascends(keys: Seq<u32>, i: int, j: int)
    requires
        keys.len() <= usize::MAX,
        0 <= i <= j < keys.len(),
    ensures
        keys[ranking(keys)[i] as int] <= keys[ranking(keys)[j] as int],
{
    lemma_ranking_exists(keys);
    if i < j {
        assert(before(keys, ranking(keys)[i] as int, ranking(keys)[j] as int));
    }
}

/// The items in the order of their keys: `keys[k]` is the key of
/// `items[k]`.
pub open spec fn taken_in_order<T>(items: Seq<T>, keys: Seq<u32>) -> Seq<T> {
    Seq::new(items.len(), |i: int| items[ranking(keys)[i] as int])
}

/// Whether no two positions have the same key.
pub open spec fn keys_differ(keys: Seq<u32>) -> bool {
    forall|k: int, l: int| 0 <= k < l < keys.len() ==> keys[k] != keys[l]
}

/// Whether `item` is among `others`, with the key `key`.
pub open spec fn is_among<T>(item: T, key: u32, others: Seq<T>, other_keys: Seq<u32>) -> bool {
    exists|l: int| 0 <= l < others.len() && others[l] == item && other_keys[l] == key
}

/// Whether each item of `items` is among `others`, with its key.
pub open spec fn each_is_among<T>(
    items: Seq<T>,
    keys: Seq<u32>,
    others: Seq<T>,
    other_keys: Seq<u32>,
) -> bool {
    forall|k: int|
        0 <= k < items.len() ==> #[trigger] is_among(items[k], keys[k], others, other_keys)
}

/// With keys that differ, the ranking takes them in strictly ascending
/// order.
proof fn lemma_ranking_strict(keys: Seq<u32>, i: int, j: int)
    requires
        keys.len() <= usize::MAX,
        keys_differ(keys),
        0 <= i < j < keys.len(),
    ensures
        keys[ranking(keys)[i] as int] < keys[ranking(keys)[j] as int],
{
    lemma_ranking_exists(keys);
    let p = ranking(keys)[i] as int;
    let q = ranking(keys)[j] as int;
    assert(before(keys, p, q));
    if p < q {
        assert(keys[p] != keys[q]);
    } else if q < p {
        assert(keys[q] != keys[p]);
    }
}

/// The place at which the ranking takes the position `x`.
proof fn lemma_place_of(keys: Seq<u32>, x: int) -> (place: int)
    requires
        keys.len() <= usize::MAX,
        0 <= x < keys.len(),
    ensures
        0 <= place < keys.len(),
        ranking(keys)[place] == x,
{
    lemma_ranking_exists(keys);
    assert(occurs(ranking(keys), x));
    choose|i: int| 0 <= i < ranking(keys).len() && ranking(keys)[i] == x
}

/// The position among `others` of the item at position `k`.
proof fn lemma_among<T>(
    items: Seq<T>,
    keys: Seq<u32>,
    others: Seq<T>,
    other_keys: Seq<u32>,
    k: int,
) -> (l: int)
    requires
        each_is_among(items, keys, others, other_keys),
        0 <= k < items.len(),
    ensures
        0 <= l < others.len(),
        others[l] == items[k],
        other_keys[l] == keys[k],
{
    assert(is_among(items[k], keys[k], others, other_keys));
    choose|l: int| 0 <= l < others.len() && others[l] == items[k] && other_keys[l] == keys[k]
}

/// Whether both sides take the same item, with the same key, at place
/// `i`.
pub open spec fn same_at<T>(
    items: Seq<T>,
    keys: Seq<u32>,
    others: Seq<T>,
    other_keys: Seq<u32>,
    i: int,
) -> bool {
    &&& items[ranking(keys)[i] as int] == others[ranking(other_keys)[i] as int]
    &&& keys[ranking(keys)[i] as int] == other_keys[ranking(other_keys)[i] as int]
}

proof fn lemma_orders_agree_upto<T>(
    items: Seq<T>,
    keys: Seq<u32>,
    others: Seq<T>,
    other_keys: Seq<u32>,
    upto: int,
)
    requires
        items.len() == keys.len(),
        others.len() == other_keys.len(),
        items.len() == others.len(),
        items.len() <= usize::MAX,
        keys_differ(keys),
        keys_differ(other_keys),
        each_is_among(items, keys, others, other_keys),
        each_is_among(others, other_keys, items, keys),
        0 <= upto <= items.len(),
    ensures
        forall|i: int| 0 <= i < upto ==> #[trigger] same_at(items, keys, others, other_keys, i),
    decreases upto,
{
    if upto > 0 {
        lemma_orders_agree_upto(items, keys, others, other_keys, upto - 1);
        lemma_ranking_exists(keys);
        lemma_ranking_exists(other_keys);
        let at = upto - 1;
        let x = ranking(keys)[at] as int;
        let y = ranking(other_keys)[at] as int;
        let l = lemma_among(items, keys, others, other_keys, x);
        let j = lemma_place_of(other_keys, l);
        if j < at {
            // the key of `x` is taken earlier among the others, and so
            // among the items: before `x` itself
            assert(same_at(items, keys, others, other_keys, j));
            lemma_ranking_strict(keys, j, at);
            assert(false);
        } else if j > at {
            // the key of `y` is smaller than that of `x`
            lemma_ranking_strict(other_keys, at, j);
            let k = lemma_among(others, other_keys, items, keys, y);
            let i = lemma_place_of(keys, k);
            if i < at {
                assert(same_at(items, keys, others, other_keys, i));
                lemma_ranking_strict(other_keys, i, at);
            } else if i > at {
                lemma_ranking_strict(keys, at, i);
            }
            assert(false);
        }
        assert(same_at(items, keys, others, other_keys, at));
    }
}

/// Where no two items have the same key, the order in which the items
/// come does not matter: taken in the order of their keys, they are the
/// same.
pub proof fn lemma_order_is_immaterial<T>(
    items: Seq<T>,
    keys: Seq<u32>,
    others: Seq<T>,
    other_keys: Seq<u32>,
)
    requires
        items.len() == keys.len(),
        others.len() == other_keys.len(),
        items.len() == others.len(),
        items.len() <= usize::MAX,
        keys_differ(keys),
        keys_differ(other_keys),
        each_is_among(items, keys, others, other_keys),
        each_is_among(others, other_keys, items, keys),
    ensures
        taken_in_order(items, keys) == taken_in_order(others, other_keys),
{
    lemma_orders_agree_upto(items, keys, others, other_keys, items.len() as int);
    assert forall|i: int| 0 <= i < items.len() implies taken_in_order(items, keys)[i]
        == taken_in_order(others, other_keys)[i] by {
        assert(same_at(items, keys, others, other_keys, i));
    }
    assert(taken_in_order(items, keys) =~= taken_in_order(others, other_keys));
}

/// The positions of `keys` in the order of their keys, positions with
/// equal keys in ascending order.
pub fn rank(keys: &Vec<u32>) -> (order: Vec<usize>)
    ensures
        is_ranking(order@, keys@),
        order@ == ranking(keys@),
{
    let mut order: Vec<usize> = Vec::new();
    let mut next: usize = 0;
    while next < keys.len()
        invariant
            next <= keys.len(),
            order.len() == next,
            forall|i: int| 0 <= i < order.len() ==> 0 <= #[trigger] order[i] < next,
            forall|i: int, j: int|
                0 <= i < j < order.len() ==> before(
                    keys@,
                    #[trigger] order[i] as int,
                    #[trigger] order[j] as int,
                ),
            forall|x: int| 0 <= x < next ==> occurs(order@, x),
        decreases keys.len() - next,
    {
        let mut slot: usize = 0;
        while slot < order.len() && keys[order[slot]] <= keys[next]
            invariant
                next < keys.len(),
                order.len() == next,
                slot <= order.len(),
                forall|i: int| 0 <= i < order.len() ==> 0 <= #[trigger] order[i] < next,
                forall|i: int| 0 <= i < slot ==> keys[#[trigger] order[i] as int] <= keys[next as int],
            decreases order.len() - slot,
        {
            slot = slot + 1;
        }
        let ghost old_order = order@;
        order.insert(slot, next);
        proof {
            assert forall|i: int, j: int| 0 <= i < j < order.len() implies before(
                keys@,
                #[trigger] order[i] as int,
                #[trigger] order[j] as int,
            ) by {
                if j < slot {
                    assert(order[i] == old_order[i] && order[j] == old_order[j]);
                } else if j == slot {
                    assert(order[i] == old_order[i]);
                } else if i < slot {
                    assert(order[i] == old_order[i] && order[j] == old_order[j - 1]);
                } else if i == slot {
                    assert(order[j] == old_order[j - 1]);
                    if slot < j - 1 {
                        assert(before(keys@, old_order[slot as int] as int, old_order[j - 1] as int));
                    }
                } else {
                    assert(order[i] == old_order[i - 1] && order[j] == old_order[j - 1]);
                }
            }
            assert forall|x: int| 0 <= x < next + 1 implies occurs(order@, x) by {
                if x == next {
                    assert(order[slot as int] == x);
                } else {
                    assert(occurs(old_order, x));
                    let i = choose|i: int| 0 <= i < old_order.len() && old_order[i] == x;
                    if i < slot {
                        assert(order[i] == x);
                    } else {
                        assert(order[i + 1] == x);
                    }
                }
            }
        }
        next = next + 1;
    }
    proof {
        assert(is_ranking(order@, keys@));
        lemma_ranking_is_unique(order@, ranking(keys@), keys@);
    }
    order
}

} // verus!
