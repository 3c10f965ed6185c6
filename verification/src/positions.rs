//! Ascending lists of the positions that meet a condition.

use vstd::prelude::*;

verus! {

/// The positions below `n` that `marked` holds of, in ascending order.
pub open spec fn positions_below(n: nat, marked: spec_fn(int) -> bool) -> Seq<usize>
    decreases n,
{
    if n == 0 {
        Seq::empty()
    } else {
        let earlier = positions_below((n - 1) as nat, marked);
        if marked(n - 1) {
            earlier.push((n - 1) as usize)
        } else {
            earlier
        }
    }
}

/// Every listed position lies below `n`.
pub proof fn lemma_positions_bounded(n: nat, marked: spec_fn(int) -> bool, k: int)
    requires
        n <= usize::MAX,
        0 <= k < positions_below(n, marked).len(),
    ensures
        positions_below(n, marked)[k] < n,
        positions_below(n, marked).len() <= n,
    decreases n,
{
    if n > 0 {
        let earlier = positions_below((n - 1) as nat, marked);
        if k < earlier.len() {
            lemma_positions_bounded((n - 1) as nat, marked, k);
        } else if earlier.len() > 0 {
            lemma_positions_bounded((n - 1) as nat, marked, 0);
        }
    }
}

/// A position is listed exactly if it lies below `n` and `marked` holds of it.
pub proof fn lemma_positions_exact(n: nat, marked: spec_fn(int) -> bool, position: usize)
    requires
        n <= usize::MAX,
    ensures
        positions_below(n, marked).contains(position) <==> position < n && marked(position as int),
    decreases n,
{
    if n > 0 {
        let earlier = positions_below((n - 1) as nat, marked);
        let all = positions_below(n, marked);
        lemma_positions_exact((n - 1) as nat, marked, position);
        if marked(n - 1) {
            assert(all == earlier.push((n - 1) as usize));
            if all.contains(position) {
                let k = choose|k: int| 0 <= k < all.len() && all[k] == position;
                if k < earlier.len() {
                    assert(earlier[k] == position);
                }
            }
            if position < n && marked(position as int) {
                if position == n - 1 {
                    assert(all[all.len() - 1] == position);
                } else {
                    let k = choose|k: int| 0 <= k < earlier.len() && earlier[k] == position;
                    assert(all[k] == position);
                }
            }
        }
    }
}

/// The listed positions ascend strictly: none is listed twice.
pub proof fn lemma_positions_ascend(n: nat, marked: spec_fn(int) -> bool, j: int, k: int)
    requires
        n <= usize::MAX,
        0 <= j < k < positions_below(n, marked).len(),
    ensures
        positions_below(n, marked)[j] < positions_below(n, marked)[k],
    decreases n,
{
    if n > 0 {
        let earlier = positions_below((n - 1) as nat, marked);
        if k < earlier.len() {
            lemma_positions_ascend((n - 1) as nat, marked, j, k);
        } else {
            lemma_positions_bounded((n - 1) as nat, marked, j);
        }
    }
}

/// No position is listed exactly if `marked` holds of none below `n`.
pub proof fn lemma_positions_none(n: nat, marked: spec_fn(int) -> bool)
    requires
        n <= usize::MAX,
    ensures
        positions_below(n, marked).len() == 0 <==> forall|i: int| 0 <= i < n ==> !#[trigger] marked(i),
    decreases n,
{
    if n > 0 {
        lemma_positions_none((n - 1) as nat, marked);
    }
}

} // verus!
