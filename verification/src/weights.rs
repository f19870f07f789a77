//! Weighted selection: which candidate a draw picks.
//!
//! Candidates are `(weight, value)` pairs kept in a fixed order.  A draw `d`
//! below the total weight picks the candidate whose slice of the number line
//! contains `d`, the slices being laid out in candidate order, each as long as
//! its weight.

use vstd::prelude::*;

verus! {

/// The summed weight of the first `k` candidates.
pub open spec fn prefix_weight<T>(candidates: Seq<(u64, T)>, k: int) -> nat
    decreases k,
{
    if k <= 0 {
        0
    } else {
        prefix_weight(candidates, k - 1) + candidates[k - 1].0 as nat
    }
}

/// The summed weight of all candidates.
pub open spec fn total_weight<T>(candidates: Seq<(u64, T)>) -> nat {
    prefix_weight(candidates, candidates.len() as int)
}

/// Whether `draw` picks the candidate at `index`: the candidates before it
/// weigh at most `draw` together, and with it they weigh more.
pub open spec fn selects<T>(candidates: Seq<(u64, T)>, draw: nat, index: int) -> bool {
    &&& 0 <= index < candidates.len()
    &&& prefix_weight(candidates, index) <= draw < prefix_weight(candidates, index + 1)
}

/// The index that `draw` picks.  Meaningful for draws below the total weight,
/// for which exactly one index is picked.
pub open spec fn selected_index<T>(candidates: Seq<(u64, T)>, draw: nat) -> int {
    choose|index: int| selects(candidates, draw, index)
}

/// Longer prefixes weigh at least as much as shorter ones.
pub proof fn lemma_prefix_weight_monotone<T>(candidates: Seq<(u64, T)>, i: int, j: int)
    requires
        i <= j,
    ensures
        prefix_weight(candidates, i) <= prefix_weight(candidates, j),
    decreases j - i,
{
    if i < j {
        lemma_prefix_weight_monotone(candidates, i, j - 1);
    }
}

/// A prefix of `k` candidates weighs at most `k` times the largest weight.
pub proof fn lemma_prefix_weight_bound<T>(candidates: Seq<(u64, T)>, k: int)
    requires
        0 <= k,
    ensures
        prefix_weight(candidates, k) <= k * u64::MAX,
    decreases k,
{
    if k > 0 {
        lemma_prefix_weight_bound(candidates, k - 1);
        assert((k - 1) * u64::MAX + u64::MAX == k * u64::MAX) by (nonlinear_arith);
    }
}

/// The total weight of as many candidates as a vector can hold fits in 128
/// bits.
pub proof fn lemma_total_weight_fits<T>(candidates: Seq<(u64, T)>)
    requires
        candidates.len() <= usize::MAX,
    ensures
        total_weight(candidates) <= u128::MAX,
{
    let n = candidates.len() as int;
    lemma_prefix_weight_bound(candidates, n);
    assert(n * u64::MAX <= u64::MAX * u64::MAX) by (nonlinear_arith)
        requires
            0 <= n <= u64::MAX,
    ;
}

/// Every draw below the weight of the first `k` candidates picks one of them.
pub proof fn lemma_selection_exists<T>(candidates: Seq<(u64, T)>, draw: nat, k: int) -> (index: int)
    requires
        0 <= k <= candidates.len(),
        draw < prefix_weight(candidates, k),
    ensures
        selects(candidates, draw, index),
        index < k,
    decreases k,
{
    if prefix_weight(candidates, k - 1) <= draw {
        k - 1
    } else {
        lemma_selection_exists(candidates, draw, k - 1)
    }
}

/// A draw picks at most one candidate.
pub proof fn lemma_selection_unique<T>(candidates: Seq<(u64, T)>, draw: nat, i: int, j: int)
    requires
        selects(candidates, draw, i),
        selects(candidates, draw, j),
    ensures
        i == j,
{
    if i < j {
        lemma_prefix_weight_monotone(candidates, i + 1, j);
    } else if j < i {
        lemma_prefix_weight_monotone(candidates, j + 1, i);
    }
}

/// For a draw below the total weight, `selected_index` is the one index that
/// the draw picks.
pub proof fn lemma_selected_index<T>(candidates: Seq<(u64, T)>, draw: nat)
    requires
        draw < total_weight(candidates),
    ensures
        selects(candidates, draw, selected_index(candidates, draw)),
        forall|index: int| selects(candidates, draw, index) ==> index == selected_index(candidates, draw),
{
    let witness = lemma_selection_exists(candidates, draw, candidates.len() as int);
    let chosen = selected_index(candidates, draw);
    assert forall|index: int| selects(candidates, draw, index) implies index == chosen by {
        lemma_selection_unique(candidates, draw, index, chosen);
    }
}

/// Adds up the weights of all candidates.
pub fn sum_weights<T>(candidates: &Vec<(u64, T)>) -> (total: u128)
    ensures
        total == total_weight(candidates@),
{
    let mut total: u128 = 0;
    let mut k: usize = 0;
    while k < candidates.len()
        invariant
            k <= candidates.len(),
            total == prefix_weight(candidates@, k as int),
        decreases candidates.len() - k,
    {
        proof {
            lemma_prefix_weight_monotone(candidates@, k + 1, candidates@.len() as int);
            lemma_total_weight_fits(candidates@);
        }
        total = total + candidates[k].0 as u128;
        k = k + 1;
    }
    total
}

/// Finds the candidate that `draw` picks.
///
/// Walks the candidates in order with a threshold that starts one above the
/// draw and loses each candidate's weight in turn; the candidate whose weight
/// uses the threshold up is the one picked.
pub fn select<T>(candidates: &Vec<(u64, T)>, draw: u128) -> (index: usize)
    requires
        draw < total_weight(candidates@),
    ensures
        selects(candidates@, draw as nat, index as int),
        index == selected_index(candidates@, draw as nat),
{
    proof {
        assert(candidates@.len() == candidates.len());
        lemma_total_weight_fits(candidates@);
    }
    let mut threshold: u128 = draw + 1;
    let mut k: usize = 0;
    loop
        invariant
            k < candidates.len(),
            draw < total_weight(candidates@),
            prefix_weight(candidates@, k as int) <= draw,
            threshold == draw + 1 - prefix_weight(candidates@, k as int),
        decreases candidates.len() - k,
    {
        let weight: u128 = candidates[k].0 as u128;
        if threshold <= weight {
            proof {
                lemma_selected_index(candidates@, draw as nat);
            }
            return k;
        }
        threshold = threshold - weight;
        k = k + 1;
        proof {
            if k == candidates.len() {
                assert(prefix_weight(candidates@, k as int) == total_weight(candidates@));
            }
        }
    }
}

} // verus!
