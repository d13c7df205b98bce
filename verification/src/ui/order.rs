//! The stable ordering of a run of z-indices.
//!
//! `z_order(zs)` lists the positions of `zs` in ascending order of z-index;
//! positions with equal z-index keep their relative order. It is defined by
//! insertion; the laws below characterise it.

use vstd::prelude::*;

verus! {

/// The items of `items` taken in the order given by `order`.
pub open spec fn pick<T>(items: Seq<T>, order: Seq<int>) -> Seq<T> {
    Seq::new(order.len(), |k: int| items[order[k]])
}

/// The positions `0, 1, .., n - 1`.
pub open spec fn identity_order(n: nat) -> Seq<int> {
    Seq::new(n, |k: int| k)
}

/// Where a key `z` goes into `keys` so that it comes right after the last key
/// that is not greater than it.
pub open spec fn insert_pos(keys: Seq<usize>, z: usize) -> int
    decreases keys.len(),
{
    if keys.len() == 0 {
        0
    } else if keys.last() <= z {
        keys.len() as int
    } else {
        insert_pos(keys.drop_last(), z)
    }
}

/// The positions of `zs` in ascending order of z-index, ties in order of
/// position.
pub open spec fn z_order(zs: Seq<usize>) -> Seq<int>
    decreases zs.len(),
{
    if zs.len() == 0 {
        Seq::empty()
    } else {
        let rest = z_order(zs.drop_last());
        rest.insert(insert_pos(pick(zs, rest), zs.last()), zs.len() - 1)
    }
}

/// Position `i` comes before position `j` in z-order.
pub open spec fn precedes(zs: Seq<usize>, i: int, j: int) -> bool {
    zs[i] < zs[j] || (zs[i] == zs[j] && i < j)
}

/// `order` lists positions of `zs`, each before the next in z-order.
pub open spec fn is_stable_ordering(zs: Seq<usize>, order: Seq<int>) -> bool {
    &&& order.len() == zs.len()
    &&& forall|k: int| 0 <= k < order.len() ==> 0 <= #[trigger] order[k] < zs.len()
    &&& forall|k: int, l: int|
        0 <= k < l < order.len() ==> precedes(zs, #[trigger] order[k], #[trigger] order[l])
}

/// The keys never decrease from one position to the next.
pub open spec fn ascending(keys: Seq<usize>) -> bool {
    forall|k: int, l: int| 0 <= k <= l < keys.len() ==> keys[k] <= keys[l]
}

/// `insert_pos` splits the keys: from the position on every key is greater
/// than `z`, and the key just before it, if there is one, is not.
pub proof fn lemma_insert_pos(keys: Seq<usize>, z: usize)
    ensures
        0 <= insert_pos(keys, z) <= keys.len(),
        forall|k: int| insert_pos(keys, z) <= k < keys.len() ==> keys[k] > z,
        insert_pos(keys, z) > 0 ==> keys[insert_pos(keys, z) - 1] <= z,
    decreases keys.len(),
{
    if keys.len() > 0 && keys.last() > z {
        let front = keys.drop_last();
        lemma_insert_pos(front, z);
        assert forall|k: int| insert_pos(keys, z) <= k < keys.len() implies keys[k] > z by {
            if k < front.len() {
                assert(front[k] == keys[k]);
            }
        }
    }
}

/// Law: `z_order(zs)` keeps every position in range, lists them in ascending
/// z-index, and lists positions of equal z-index in their given order.
pub proof fn lemma_z_order_stable(zs: Seq<usize>)
    ensures
        is_stable_ordering(zs, z_order(zs)),
    decreases zs.len(),
{
    if zs.len() > 0 {
        let front = zs.drop_last();
        let rest = z_order(front);
        lemma_z_order_stable(front);
        let keys = pick(zs, rest);
        let z = zs.last();
        let pos = insert_pos(keys, z);
        lemma_insert_pos(keys, z);
        let order = z_order(zs);
        assert(order == rest.insert(pos, zs.len() - 1));
        assert forall|k: int| 0 <= k < pos implies keys[k] <= z by {
            if k < pos - 1 {
                assert(precedes(front, rest[k], rest[pos - 1]));
            }
        }
        assert forall|k: int, l: int| 0 <= k < l < order.len() implies precedes(
            zs,
            #[trigger] order[k],
            #[trigger] order[l],
        ) by {
            if l < pos {
                assert(precedes(front, rest[k], rest[l]));
            } else if l == pos {
                assert(keys[k] <= z);
            } else if k < pos {
                assert(precedes(front, rest[k], rest[l - 1]));
            } else if k == pos {
                assert(keys[l - 1] > z);
            } else {
                assert(precedes(front, rest[k - 1], rest[l - 1]));
            }
        }
    }
}

/// Law: no position is lost; every position of `zs` occurs in `z_order(zs)`.
pub proof fn lemma_z_order_covers(zs: Seq<usize>, i: int)
    requires
        0 <= i < zs.len(),
    ensures
        exists|k: int| 0 <= k < zs.len() && #[trigger] z_order(zs)[k] == i,
    decreases zs.len(),
{
    let front = zs.drop_last();
    let rest = z_order(front);
    lemma_z_order_stable(front);
    lemma_z_order_stable(zs);
    let pos = insert_pos(pick(zs, rest), zs.last());
    lemma_insert_pos(pick(zs, rest), zs.last());
    let order = z_order(zs);
    if i == zs.len() - 1 {
        assert(order[pos] == i);
    } else {
        lemma_z_order_covers(front, i);
        let k = choose|k: int| 0 <= k < front.len() && #[trigger] rest[k] == i;
        if k < pos {
            assert(order[k] == i);
        } else {
            assert(order[k + 1] == i);
        }
    }
}

/// Law: no position occurs twice in `z_order(zs)`.
pub proof fn lemma_z_order_distinct(zs: Seq<usize>, k: int, l: int)
    requires
        0 <= k < zs.len(),
        0 <= l < zs.len(),
        z_order(zs)[k] == z_order(zs)[l],
    ensures
        k == l,
{
    lemma_z_order_stable(zs);
    let order = z_order(zs);
    if k < l {
        assert(precedes(zs, order[k], order[l]));
    } else if l < k {
        assert(precedes(zs, order[l], order[k]));
    }
}

/// The order `cur` after the entry at position `i` has moved down to `j`.
pub open spec fn move_down(cur: Seq<int>, i: int, j: int) -> Seq<int> {
    cur.remove(i).insert(j, cur[i])
}

/// Moving an item of a picked sequence moves the entry of the order with it.
pub proof fn lemma_move_pick<T>(items: Seq<T>, cur: Seq<int>, i: int, j: int)
    requires
        0 <= j <= i < cur.len(),
    ensures
        pick(items, cur).remove(i).insert(j, pick(items, cur)[i]) =~= pick(
            items,
            move_down(cur, i, j),
        ),
        move_down(cur, i, j).len() == cur.len(),
        j == i ==> move_down(cur, i, j) =~= cur,
        j == i ==> pick(items, cur).remove(i).insert(j, pick(items, cur)[i]) =~= pick(items, cur),
        forall|k: int| 0 <= k < j ==> #[trigger] move_down(cur, i, j)[k] == cur[k],
        move_down(cur, i, j)[j] == cur[i],
        forall|k: int| j < k <= i ==> #[trigger] move_down(cur, i, j)[k] == cur[k - 1],
        forall|k: int| i < k < cur.len() ==> #[trigger] move_down(cur, i, j)[k] == cur[k],
{
}

/// One step of the insertion that defines `z_order`: with the first `i`
/// positions in order, position `i` goes where `insert_pos` says.
pub proof fn lemma_z_order_step(zs: Seq<usize>, cur: Seq<int>, i: int, j: int)
    requires
        0 <= i < zs.len(),
        cur.len() == zs.len(),
        cur.take(i) == z_order(zs.take(i)),
        cur[i] == i,
        j == insert_pos(pick(zs.take(i + 1), cur.take(i)), zs[i]),
    ensures
        0 <= j <= i,
        move_down(cur, i, j).take(i + 1) == z_order(zs.take(i + 1)),
{
    let sorted = cur.take(i);
    lemma_insert_pos(pick(zs.take(i + 1), sorted), zs[i]);
    assert(zs.take(i + 1).drop_last() =~= zs.take(i));
    assert(zs.take(i + 1).last() == zs[i]);
    assert(z_order(zs.take(i + 1)) == sorted.insert(j, i));
    lemma_move_pick::<int>(Seq::empty(), cur, i, j);
    assert(move_down(cur, i, j).take(i + 1) =~= sorted.insert(j, i));
}

/// Law: z-indices that already ascend are left in place.
pub proof fn lemma_z_order_of_ascending(zs: Seq<usize>)
    requires
        ascending(zs),
    ensures
        z_order(zs) =~= identity_order(zs.len()),
    decreases zs.len(),
{
    if zs.len() > 0 {
        let front = zs.drop_last();
        assert(ascending(front)) by {
            assert forall|k: int, l: int| 0 <= k <= l < front.len() implies front[k] <= front[l] by {
                assert(zs[k] <= zs[l]);
            }
        }
        lemma_z_order_of_ascending(front);
        let rest = z_order(front);
        let keys = pick(zs, rest);
        assert(keys =~= front);
        if keys.len() > 0 {
            assert(keys.last() == zs[zs.len() - 2]);
            assert(zs[zs.len() - 2] <= zs[zs.len() - 1]);
        }
        assert(insert_pos(keys, zs.last()) == keys.len());
    }
}

/// Law: ordering what is in z-order already changes nothing: the z-order of
/// the z-indices read in z-order is the positions as they stand.
pub proof fn lemma_z_order_idempotent(zs: Seq<usize>)
    ensures
        z_order(pick(zs, z_order(zs))) =~= identity_order(zs.len()),
{
    lemma_z_order_stable(zs);
    lemma_z_order_ascends(zs);
    lemma_z_order_of_ascending(pick(zs, z_order(zs)));
}

/// Law: the z-indices read in z-order ascend.
pub proof fn lemma_z_order_ascends(zs: Seq<usize>)
    ensures
        ascending(pick(zs, z_order(zs))),
{
    lemma_z_order_stable(zs);
    let order = z_order(zs);
    let keys = pick(zs, order);
    assert forall|k: int, l: int| 0 <= k <= l < keys.len() implies keys[k] <= keys[l] by {
        if k < l {
            assert(precedes(zs, order[k], order[l]));
        }
    }
}

} // verus!
