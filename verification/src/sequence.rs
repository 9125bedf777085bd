//! Small tools for filtering sequences and for going through a vector once
//! while moving its items out of it.

use vstd::prelude::*;

verus! {

/// Filtering a sequence that ends in `last` filters what comes before and
/// then decides on `last`.
pub proof fn lemma_filter_push<A>(before: Seq<A>, last: A, pred: spec_fn(A) -> bool)
    ensures
        before.push(last).filter(pred) == if pred(last) {
            before.filter(pred).push(last)
        } else {
            before.filter(pred)
        },
{
    reveal(Seq::filter);
    assert(before.push(last).drop_last() =~= before);
}

/// A filter keeps a sequence as it is if every item meets the predicate.
pub proof fn lemma_filter_keeps_all<A>(items: Seq<A>, pred: spec_fn(A) -> bool)
    requires
        forall|i: int| 0 <= i < items.len() ==> pred(#[trigger] items[i]),
    ensures
        items.filter(pred) == items,
    decreases items.len(),
{
    reveal(Seq::filter);
    if items.len() > 0 {
        let before = items.drop_last();
        assert forall|i: int| 0 <= i < before.len() implies pred(#[trigger] before[i]) by {
            assert(before[i] == items[i]);
        }
        lemma_filter_keeps_all(before, pred);
        assert(before.push(items.last()) =~= items);
    } else {
        assert(items.filter(pred) =~= items);
    }
}

/// Turns a vector back to front, so that popping it hands out the items
/// from the first to the last.
pub fn reversed<T>(items: Vec<T>) -> (turned: Vec<T>)
    ensures
        turned.len() == items.len(),
        forall|j: int| 0 <= j < turned.len() ==> turned@[j] == items@[items.len() - 1 - j],
{
    let mut rest = items;
    let mut turned: Vec<T> = Vec::new();
    while rest.len() > 0
        invariant
            rest.len() + turned.len() == items.len(),
            forall|j: int| 0 <= j < rest.len() ==> rest@[j] == items@[j],
            forall|j: int| 0 <= j < turned.len() ==> turned@[j] == items@[items.len() - 1 - j],
        decreases rest.len(),
    {
        match rest.pop() {
            Some(item) => turned.push(item),
            None => {},
        }
    }
    turned
}

} // verus!
