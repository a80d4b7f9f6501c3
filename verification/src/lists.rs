//! What picking values out of a list gives.

use vstd::prelude::*;

verus! {

/// The value that is there, if one is.
pub open spec fn present<B>(value: Option<B>) -> Seq<B> {
    match value {
        Some(v) => seq![v],
        None => Seq::empty(),
    }
}

/// Picking from two lists in a row is picking from each of them in turn.
pub proof fn lemma_filter_map_add<A, B>(left: Seq<A>, right: Seq<A>, f: spec_fn(A) -> Option<B>)
    ensures
        (left + right).filter_map(f) == left.filter_map(f) + right.filter_map(f),
    decreases right.len(),
{
    if right.len() == 0 {
        assert(left + right == left);
        assert(left.filter_map(f) + right.filter_map(f) == left.filter_map(f));
    } else {
        assert((left + right).drop_last() == left + right.drop_last());
        lemma_filter_map_add(left, right.drop_last(), f);
        assert((left + right).filter_map(f) == left.filter_map(f) + right.filter_map(f));
    }
}

/// Picking from a list of at most two values.
pub proof fn lemma_filter_map_short<A, B>(list: Seq<A>, f: spec_fn(A) -> Option<B>)
    requires
        list.len() <= 2,
    ensures
        list.len() == 0 ==> list.filter_map(f) == Seq::<B>::empty(),
        list.len() == 1 ==> list.filter_map(f) == present(f(list[0])),
        list.len() == 2 ==> list.filter_map(f) == present(f(list[0])) + present(f(list[1])),
{
    reveal_with_fuel(Seq::filter_map, 3);
    if list.len() == 1 {
        assert(list.filter_map(f) =~= present(f(list[0])));
    } else if list.len() == 2 {
        assert(list.drop_last()[0] == list[0]);
        assert(list.filter_map(f) =~= present(f(list[0])) + present(f(list[1])));
    }
}

/// Whether an item stands in a list at one place and no other.
pub open spec fn once<A>(list: Seq<A>, item: A) -> bool {
    exists|i: int|
        0 <= i < list.len() && #[trigger] list[i] == item && (forall|j: int|
            0 <= j < list.len() && #[trigger] list[j] == item ==> j == i)
}

/// Whether one item stands in a list before another.
pub open spec fn precedes<A>(list: Seq<A>, earlier: A, later: A) -> bool {
    exists|i: int, j: int|
        0 <= i < j < list.len() && #[trigger] list[i] == earlier && #[trigger] list[j] == later
}

} // verus!
