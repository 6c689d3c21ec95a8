use vstd::prelude::*;

verus! {

/// `sel` is strictly ascending and every index in it is below `n`.
pub open spec fn ascending_below(sel: Seq<usize>, n: int) -> bool {
    &&& forall|i: int, j: int| 0 <= i < j < sel.len() ==> sel[i] < sel[j]
    &&& forall|i: int| 0 <= i < sel.len() ==> sel[i] < n
}

/// The positions named in `sel` from its `j`-th entry on.
pub open spec fn positions_from(sel: Seq<usize>, j: int) -> Set<int> {
    Set::new(|p: int| exists|m: int| j <= m < sel.len() && #[trigger] sel[m] as int == p)
}

/// The positions named in `sel`.
pub open spec fn index_set(sel: Seq<usize>) -> Set<int> {
    positions_from(sel, 0)
}

/// The items of `s` whose positions are not in `r`, in their original order.
pub open spec fn without_indices<T>(s: Seq<T>, r: Set<int>) -> Seq<T>
    decreases s.len(),
{
    if s.len() == 0 {
        Seq::empty()
    } else {
        let front = without_indices(s.drop_last(), r);
        if r.contains(s.len() - 1) {
            front
        } else {
            front.push(s.last())
        }
    }
}

/// The items of `s` whose positions are in `r`, in their original order.
pub open spec fn keep_indices<T>(s: Seq<T>, r: Set<int>) -> Seq<T> {
    without_indices(s, Set::new(|p: int| !r.contains(p)))
}

proof fn lemma_without_beyond<T>(s: Seq<T>, r: Set<int>)
    requires
        forall|q: int| r.contains(q) ==> q >= s.len(),
    ensures
        without_indices(s, r) == s,
    decreases s.len(),
{
    if s.len() > 0 {
        lemma_without_beyond(s.drop_last(), r);
        assert(s.drop_last().push(s.last()) =~= s);
    }
}

proof fn lemma_without_prefix<T>(s: Seq<T>, r: Set<int>, p: int)
    requires
        0 <= p < s.len(),
        forall|q: int| r.contains(q) ==> q > p,
    ensures
        without_indices(s, r).len() > p,
        forall|i: int| 0 <= i <= p ==> #[trigger] without_indices(s, r)[i] == s[i],
    decreases s.len(),
{
    if s.len() - 1 == p {
        lemma_without_beyond(s.drop_last(), r);
    } else {
        lemma_without_prefix(s.drop_last(), r, p);
    }
}

proof fn lemma_without_remove<T>(s: Seq<T>, r: Set<int>, p: int)
    requires
        0 <= p < s.len(),
        forall|q: int| r.contains(q) ==> q > p,
    ensures
        without_indices(s, r).remove(p) == without_indices(s, r.insert(p)),
    decreases s.len(),
{
    let t = s.drop_last();
    if s.len() - 1 == p {
        lemma_without_beyond(s, r);
        lemma_without_beyond(t, r.insert(p));
        assert(s.remove(p) =~= t);
    } else {
        lemma_without_remove(t, r, p);
        lemma_without_prefix(t, r, p);
        let a = without_indices(t, r);
        if !r.contains(s.len() - 1) {
            assert(a.push(s.last()).remove(p) =~= a.remove(p).push(s.last()));
        }
    }
}

/// Removing the items at a set of distinct positions from a list of `n`
/// items leaves `n - k` items: the others, in their order. Consuming the
/// positions from the highest down removes exactly the items that stood at
/// them in the original list: once those above the `j`-th are gone, the
/// `j`-th still names the same item.
pub proof fn lemma_removal_by_descending_positions<T>(s: Seq<T>, sel: Seq<usize>, j: int)
    requires
        ascending_below(sel, s.len() as int),
        0 <= j <= sel.len(),
    ensures
        without_indices(s, positions_from(sel, j)).len() == s.len() - (sel.len() - j),
        j > 0 ==> sel[j - 1] < without_indices(s, positions_from(sel, j)).len(),
        j > 0 ==> without_indices(s, positions_from(sel, j)).remove(sel[j - 1] as int)
            == without_indices(s, positions_from(sel, j - 1)),
    decreases sel.len() - j,
{
    let hi = positions_from(sel, j);
    if j == sel.len() {
        assert(hi =~= Set::empty());
        lemma_without_beyond(s, hi);
    } else {
        lemma_removal_by_descending_positions(s, sel, j + 1);
    }
    if j > 0 {
        let p0 = sel[j - 1] as int;
        assert forall|q: int| hi.contains(q) implies q > p0 by {
            let m = choose|m: int| j <= m < sel.len() && #[trigger] sel[m] as int == q;
        }
        lemma_without_prefix(s, hi, p0);
        lemma_without_remove(s, hi, p0);
        assert(positions_from(sel, j - 1) =~= hi.insert(p0)) by {
            assert forall|q: int| #[trigger] hi.insert(p0).contains(q) implies positions_from(
                sel,
                j - 1,
            ).contains(q) by {
                if q == p0 {
                    assert(sel[j - 1] as int == q);
                } else {
                    let m = choose|m: int| j <= m < sel.len() && #[trigger] sel[m] as int == q;
                }
            }
        }
    }
}

/// Removes the items at the positions in `selected`, which the user picked
/// from the list as it stands. The positions are consumed from the highest
/// down, so that each removal leaves the lower positions in place.
pub fn remove_selected<T>(list: &mut Vec<T>, selected: &Vec<usize>)
    requires
        ascending_below(selected@, old(list)@.len() as int),
    ensures
        final(list)@ == without_indices(old(list)@, index_set(selected@)),
        final(list)@.len() == old(list)@.len() - selected@.len(),
{
    let ghost s = list@;
    let mut j: usize = selected.len();
    proof {
        assert(positions_from(selected@, j as int) =~= Set::empty());
        lemma_without_beyond(s, positions_from(selected@, j as int));
    }
    while j > 0
        invariant
            ascending_below(selected@, s.len() as int),
            j <= selected@.len(),
            list@ == without_indices(s, positions_from(selected@, j as int)),
        decreases j,
    {
        proof {
            lemma_removal_by_descending_positions(s, selected@, j as int);
        }
        let p = selected[j - 1];
        list.remove(p);
        j -= 1;
    }
    proof {
        lemma_removal_by_descending_positions(s, selected@, 0);
    }
}

/// Where picking the items at positions `picks`, one at a time, from the
/// pool of those not yet placed leaves the placed items and the pool. A
/// position outside the pool ends the picking.
pub open spec fn after_picks<T>(placed: Seq<T>, pool: Seq<T>, picks: Seq<int>) -> (Seq<T>, Seq<T>)
    decreases picks.len(),
{
    if picks.len() == 0 || !(0 <= picks[0] < pool.len()) {
        (placed, pool)
    } else {
        after_picks(placed.push(pool[picks[0]]), pool.remove(picks[0]), picks.drop_first())
    }
}

proof fn lemma_picks_keep_items<T>(placed: Seq<T>, pool: Seq<T>, picks: Seq<int>)
    ensures
        (after_picks(placed, pool, picks).0 + after_picks(placed, pool, picks).1).to_multiset()
            == (placed + pool).to_multiset(),
    decreases picks.len(),
{
    if picks.len() > 0 && 0 <= picks[0] < pool.len() {
        let i = picks[0];
        let x = pool[i];
        lemma_picks_keep_items(placed.push(x), pool.remove(i), picks.drop_first());
        vstd::seq_lib::lemma_multiset_commutative(placed.push(x), pool.remove(i));
        vstd::seq_lib::lemma_multiset_commutative(placed, pool);
        vstd::seq_lib::to_multiset_build(placed, x);
        vstd::seq_lib::to_multiset_remove(pool, i);
        assert(pool.to_multiset().count(x) > 0) by {
            vstd::seq_lib::to_multiset_contains(pool, x);
            assert(pool.contains(x));
        }
        assert(placed.to_multiset().insert(x).add(pool.to_multiset().remove(x))
            =~= placed.to_multiset().add(pool.to_multiset()));
    }
}

/// Reordering a list by picking the next item, again and again, from those
/// not yet placed yields, once none is left, a permutation of the list: every
/// item exactly as often as before, none added and none lost, for a list of
/// any length.
pub proof fn lemma_pick_order_is_permutation<T>(list: Seq<T>, picks: Seq<int>)
    ensures
        after_picks(Seq::empty(), list, picks).1.len() == 0 ==> after_picks(
            Seq::empty(),
            list,
            picks,
        ).0.to_multiset() == list.to_multiset() && after_picks(Seq::empty(), list, picks).0.len()
            == list.len(),
{
    let (placed, pool) = after_picks(Seq::empty(), list, picks);
    lemma_picks_keep_items(Seq::empty(), list, picks);
    assert(Seq::<T>::empty() + list =~= list);
    if pool.len() == 0 {
        assert(placed + pool =~= placed);
        vstd::seq_lib::to_multiset_len(placed);
        vstd::seq_lib::to_multiset_len(list);
    }
}

/// Moves the item at position `idx` of the pool to the end of the items
/// placed so far: one step of reordering by picking.
pub fn pick_next<T>(pool: &mut Vec<T>, placed: &mut Vec<T>, idx: usize)
    requires
        idx < old(pool)@.len(),
    ensures
        (final(placed)@, final(pool)@) == after_picks(old(placed)@, old(pool)@, seq![idx as int]),
        final(placed)@ == old(placed)@.push(old(pool)@[idx as int]),
        final(pool)@ == old(pool)@.remove(idx as int),
        (final(placed)@ + final(pool)@).to_multiset() == (old(placed)@ + old(pool)@).to_multiset(),
{
    let ghost before = (placed@, pool@);
    let item = pool.remove(idx);
    placed.push(item);
    proof {
        let picks = seq![idx as int];
        assert(picks.drop_first() =~= Seq::<int>::empty());
        assert(after_picks(placed@, pool@, picks.drop_first()) == (placed@, pool@));
        assert(after_picks(before.0, before.1, picks) == after_picks(
            placed@,
            pool@,
            picks.drop_first(),
        ));
        lemma_picks_keep_items(before.0, before.1, picks);
    }
}

} // verus!
