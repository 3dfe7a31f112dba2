//! Facts about sequences that the proofs of the interface share.

use vstd::prelude::*;

verus! {

/// What `keep` keeps of the first `n + 1` items is what it keeps of the first `n`, and after
/// that item number `n`, where it keeps it.
pub proof fn lemma_filter_next<A>(items: Seq<A>, keep: spec_fn(A) -> bool, n: int)
    requires
        0 <= n < items.len(),
    ensures
        keep(items[n]) ==> items.take(n + 1).filter(keep) == items.take(n).filter(keep).push(
            items[n],
        ),
        !keep(items[n]) ==> items.take(n + 1).filter(keep) == items.take(n).filter(keep),
{
    reveal_with_fuel(Seq::filter, 2);
    assert(items.take(n + 1).drop_last() == items.take(n));
    assert(items.take(n + 1).last() == items[n]);
}

/// `keep` keeps nothing of no items.
pub proof fn lemma_filter_none<A>(items: Seq<A>, keep: spec_fn(A) -> bool)
    ensures
        items.take(0).filter(keep) == Seq::<A>::empty(),
{
    reveal_with_fuel(Seq::filter, 2);
}

} // verus!
