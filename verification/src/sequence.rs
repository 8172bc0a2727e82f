//! Facts about sequences: the leading part whose items pass a test, and what
//! a partial mapping keeps of a sequence.

use vstd::prelude::*;

verus! {

/// The number of items at the front of `items` that `accepts` holds of, up to
/// the first of which it does not hold.
pub open spec fn leading<T>(items: Seq<T>, accepts: spec_fn(T) -> bool) -> int
    decreases items.len(),
{
    if items.len() == 0 || !accepts(items[0]) {
        0
    } else {
        1 + leading(items.drop_first(), accepts)
    }
}

/// Where `accepts` holds of every item before `at`, and `at` is the end or an
/// item of which it does not hold, the leading part has length `at`.
pub proof fn lemma_leading_at<T>(items: Seq<T>, accepts: spec_fn(T) -> bool, at: int)
    requires
        0 <= at <= items.len(),
        forall|i: int| 0 <= i < at ==> accepts(#[trigger] items[i]),
        at < items.len() ==> !accepts(items[at]),
    ensures
        leading(items, accepts) == at,
    decreases items.len(),
{
    if at > 0 {
        lemma_leading_at(items.drop_first(), accepts, at - 1);
    }
}

/// The leading part lies within the sequence, `accepts` holds of each of its
/// items, and not of the item that follows it.
pub proof fn lemma_leading<T>(items: Seq<T>, accepts: spec_fn(T) -> bool)
    ensures
        0 <= leading(items, accepts) <= items.len(),
        forall|i: int| 0 <= i < leading(items, accepts) ==> accepts(#[trigger] items[i]),
        leading(items, accepts) < items.len() ==> !accepts(items[leading(items, accepts)]),
    decreases items.len(),
{
    if items.len() > 0 && accepts(items[0]) {
        let rest = items.drop_first();
        lemma_leading(rest, accepts);
        assert forall|i: int| 0 <= i < leading(items, accepts) implies accepts(
            #[trigger] items[i],
        ) by {
            if i > 0 {
                assert(items[i] == rest[i - 1]);
            }
        }
    }
}

/// A sequence none of whose items `f` maps to a value is mapped to nothing.
pub proof fn lemma_filter_map_of_none<A, B>(items: Seq<A>, f: spec_fn(A) -> Option<B>)
    requires
        forall|i: int| 0 <= i < items.len() ==> f(#[trigger] items[i]) is None,
    ensures
        items.filter_map(f) == Seq::<B>::empty(),
    decreases items.len(),
{
    if items.len() > 0 {
        lemma_filter_map_of_none(items.drop_last(), f);
    }
}

/// Mapping two sequences in a row gives what mapping each gives, in a row.
pub proof fn lemma_filter_map_of_add<A, B>(left: Seq<A>, right: Seq<A>, f: spec_fn(A) -> Option<B>)
    ensures
        (left + right).filter_map(f) == left.filter_map(f) + right.filter_map(f),
    decreases right.len(),
{
    if right.len() > 0 {
        let rest = right.drop_last();
        lemma_filter_map_of_add(left, rest, f);
        assert((left + right).drop_last() =~= left + rest);
    }
}

/// An item that `f` maps to no value can be left out of a sequence without
/// changing what `f` maps the sequence to.
pub proof fn lemma_filter_map_skips<A, B>(items: Seq<A>, f: spec_fn(A) -> Option<B>, index: int)
    requires
        0 <= index < items.len(),
        f(items[index]) is None,
    ensures
        items.filter_map(f) == items.remove(index).filter_map(f),
{
    let before = items.take(index);
    let after = items.skip(index + 1);
    let one = seq![items[index]];
    assert(items =~= (before + one) + after);
    lemma_filter_map_of_add(before + one, after, f);
    lemma_filter_map_of_add(before, one, f);
    lemma_filter_map_of_add(before, after, f);
    assert(one.filter_map(f) =~= Seq::<B>::empty()) by {
        lemma_filter_map_of_none(one, f);
    }
}

} // verus!
