//! What it means that one sequence is picked out of another with the order
//! kept, and how filtering picks.

use vstd::prelude::*;

verus! {

/// `part` is found in `whole` at the positions `at`, item by item, and the
/// positions grow: `part` keeps the order that its items have in `whole`.
pub open spec fn picked_at<A>(part: Seq<A>, whole: Seq<A>, at: Seq<int>) -> bool {
    &&& at.len() == part.len()
    &&& forall|k: int| 0 <= k < at.len() ==> 0 <= #[trigger] at[k] < whole.len()
    &&& forall|k: int| 0 <= k < at.len() ==> #[trigger] part[k] == whole[at[k]]
    &&& forall|j: int, k: int| 0 <= j < k < at.len() ==> #[trigger] at[j] < #[trigger] at[k]
}

/// `part` can be had from `whole` by leaving items out: nothing is added,
/// changed or moved.
pub open spec fn is_subsequence<A>(part: Seq<A>, whole: Seq<A>) -> bool {
    exists|at: Seq<int>| picked_at(part, whole, at)
}

/// A scan from front to back starts with nothing kept and has seen the
/// whole sequence once it has seen as many items as there are.
pub proof fn lemma_filter_ends<A>(items: Seq<A>, pass: spec_fn(A) -> bool)
    ensures
        items.take(0).filter(pass) == Seq::<A>::empty(),
        items.take(items.len() as int) == items,
{
    reveal(Seq::filter);
    assert(items.take(0) =~= Seq::<A>::empty());
    assert(items.take(items.len() as int) =~= items);
}

/// The step of a scan from front to back: filtering the first `done + 1`
/// items is filtering the first `done` and then deciding on the next.
pub proof fn lemma_filter_next<A>(items: Seq<A>, pass: spec_fn(A) -> bool, done: int)
    requires
        0 <= done < items.len(),
    ensures
        items.take(done + 1).filter(pass) == if pass(items[done]) {
            items.take(done).filter(pass).push(items[done])
        } else {
            items.take(done).filter(pass)
        },
{
    assert(items.take(done + 1) =~= items.take(done).push(items[done]));
    items.take(done).lemma_filter_push(items[done], pass);
}

/// A filter that every item passes leaves the sequence as it is.
pub proof fn lemma_filter_keeps_all<A>(items: Seq<A>, pass: spec_fn(A) -> bool)
    requires
        forall|i: int| 0 <= i < items.len() ==> pass(#[trigger] items[i]),
    ensures
        items.filter(pass) == items,
    decreases items.len(),
{
    reveal(Seq::filter);
    if items.len() > 0 {
        let front = items.drop_last();
        assert forall|i: int| 0 <= i < front.len() implies pass(#[trigger] front[i]) by {
            assert(front[i] == items[i]);
        }
        lemma_filter_keeps_all(front, pass);
        assert(pass(items[items.len() - 1]));
        assert(front.push(items.last()) =~= items);
    }
}

/// Where every item that passes `narrow` also passes `wide`, what `narrow`
/// lets through is picked in order out of what `wide` lets through, and is
/// no longer.
pub proof fn lemma_filter_by_narrower<A>(
    items: Seq<A>,
    narrow: spec_fn(A) -> bool,
    wide: spec_fn(A) -> bool,
)
    requires
        forall|i: int| 0 <= i < items.len() && narrow(#[trigger] items[i]) ==> wide(items[i]),
    ensures
        is_subsequence(items.filter(narrow), items.filter(wide)),
        items.filter(narrow).len() <= items.filter(wide).len(),
    decreases items.len(),
{
    reveal(Seq::filter);
    if items.len() == 0 {
        assert(picked_at(items.filter(narrow), items.filter(wide), Seq::<int>::empty()));
    } else {
        let front = items.drop_last();
        let last = items.last();
        assert forall|i: int| 0 <= i < front.len() && narrow(#[trigger] front[i]) implies wide(
            front[i],
        ) by {
            assert(front[i] == items[i]);
        }
        lemma_filter_by_narrower(front, narrow, wide);
        let at = choose|at: Seq<int>| picked_at(front.filter(narrow), front.filter(wide), at);
        if narrow(last) {
            assert(narrow(items[items.len() - 1]));
            assert(wide(last));
            let longer = at.push(front.filter(wide).len() as int);
            assert(picked_at(items.filter(narrow), items.filter(wide), longer));
        } else {
            assert(picked_at(items.filter(narrow), items.filter(wide), at));
        }
    }
}

/// What a filter lets through is picked in order out of the sequence that
/// it was applied to.
pub proof fn lemma_filter_is_subsequence<A>(items: Seq<A>, pass: spec_fn(A) -> bool)
    ensures
        is_subsequence(items.filter(pass), items),
{
    let all = |item: A| true;
    lemma_filter_keeps_all(items, all);
    lemma_filter_by_narrower(items, pass, all);
}

} // verus!
