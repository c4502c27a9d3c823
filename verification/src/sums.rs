//! Sums of a weight over a finite set, and how they change when one element
//! enters the set or changes its weight.

use vstd::prelude::*;

verus! {

/// The sum of `weight` over the elements of the finite set `keys`.
pub open spec fn sum_over<K>(keys: Set<K>, weight: spec_fn(K) -> nat) -> nat
    decreases keys.len(),
    when keys.finite()
{
    if keys.is_empty() {
        0
    } else {
        let k = keys.choose();
        weight(k) + sum_over(keys.remove(k), weight)
    }
}

/// Any element can be split off the sum, not only the chosen one.
pub proof fn lemma_sum_split<K>(keys: Set<K>, weight: spec_fn(K) -> nat, k: K)
    requires
        keys.finite(),
        keys.contains(k),
    ensures
        sum_over(keys, weight) == weight(k) + sum_over(keys.remove(k), weight),
    decreases keys.len(),
{
    let c = keys.choose();
    if c != k {
        lemma_sum_split(keys.remove(c), weight, k);
        lemma_sum_split(keys.remove(k), weight, c);
        assert(keys.remove(c).remove(k) =~= keys.remove(k).remove(c));
    }
}

/// Weights that agree on every element of the set have the same sum.
pub proof fn lemma_sum_agree<K>(keys: Set<K>, w1: spec_fn(K) -> nat, w2: spec_fn(K) -> nat)
    requires
        keys.finite(),
        forall|k: K| keys.contains(k) ==> w1(k) == w2(k),
    ensures
        sum_over(keys, w1) == sum_over(keys, w2),
    decreases keys.len(),
{
    if !keys.is_empty() {
        let c = keys.choose();
        lemma_sum_agree(keys.remove(c), w1, w2);
    }
}

/// An element that enters the set adds its weight to the sum.
pub proof fn lemma_sum_insert<K>(keys: Set<K>, weight: spec_fn(K) -> nat, k: K)
    requires
        keys.finite(),
        !keys.contains(k),
    ensures
        sum_over(keys.insert(k), weight) == weight(k) + sum_over(keys, weight),
{
    lemma_sum_split(keys.insert(k), weight, k);
    assert(keys.insert(k).remove(k) =~= keys);
}

} // verus!
