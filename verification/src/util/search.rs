//! Finding the first item of a sequence that meets a condition.

use vstd::prelude::*;

verus! {

/// Whether `at` is the position of the first item that is wanted.
pub open spec fn is_first_where<A>(items: Seq<A>, wanted: spec_fn(A) -> bool, at: int) -> bool {
    &&& 0 <= at < items.len()
    &&& wanted(items[at])
    &&& forall|j: int| 0 <= j < at ==> !wanted(#[trigger] items[j])
}

/// The position of the first item that is wanted; `None` where no item is.
pub open spec fn first_where<A>(items: Seq<A>, wanted: spec_fn(A) -> bool) -> Option<int> {
    if exists|at: int| is_first_where(items, wanted, at) {
        Some(choose|at: int| is_first_where(items, wanted, at))
    } else {
        None
    }
}

/// A position that is the first of a wanted item is the one that
/// `first_where` gives.
pub proof fn lemma_first_where_found<A>(items: Seq<A>, wanted: spec_fn(A) -> bool, at: int)
    requires
        is_first_where(items, wanted, at),
    ensures
        first_where(items, wanted) == Some(at),
{
}

/// Where no item is wanted, `first_where` gives none.
pub proof fn lemma_first_where_absent<A>(items: Seq<A>, wanted: spec_fn(A) -> bool)
    requires
        forall|j: int| 0 <= j < items.len() ==> !wanted(#[trigger] items[j]),
    ensures
        first_where(items, wanted) is None,
{
}

/// What `first_where` gives is the first position of a wanted item, and
/// where it gives none no item is wanted.
pub proof fn lemma_first_where<A>(items: Seq<A>, wanted: spec_fn(A) -> bool)
    ensures
        match first_where(items, wanted) {
            Some(at) => is_first_where(items, wanted, at),
            None => forall|j: int| 0 <= j < items.len() ==> !wanted(#[trigger] items[j]),
        },
{
    if first_where(items, wanted) is None {
        assert forall|j: int| 0 <= j < items.len() implies !wanted(#[trigger] items[j]) by {
            if wanted(items[j]) {
                lemma_some_first(items, wanted, j);
            }
        }
    }
}

/// Where some item up to `upto` is wanted, there is a first wanted item.
proof fn lemma_some_first<A>(items: Seq<A>, wanted: spec_fn(A) -> bool, upto: int)
    requires
        0 <= upto < items.len(),
        wanted(items[upto]),
    ensures
        exists|at: int| is_first_where(items, wanted, at),
    decreases upto,
{
    if forall|j: int| 0 <= j < upto ==> !wanted(#[trigger] items[j]) {
        assert(is_first_where(items, wanted, upto));
    } else {
        let earlier = choose|j: int| 0 <= j < upto && wanted(#[trigger] items[j]);
        lemma_some_first(items, wanted, earlier);
    }
}

} // verus!
