//! The integer side of a Fourier decomposition: which frequencies are
//! computed, and in which order the terms are drawn.
//!
//! Terms are drawn largest first. The size of a term is handed over as an
//! unsigned key that grows with it; terms of equal size keep the order in
//! which they were computed.

use vstd::prelude::*;

verus! {

/// The frequency at position `index` of the list 0, 1, -1, 2, -2, ...
pub open spec fn frequency_at(index: int) -> int {
    if index % 2 == 1 {
        (index + 1) / 2
    } else {
        -(index / 2)
    }
}

/// The position of the frequency `f` in the list 0, 1, -1, 2, -2, ...
pub open spec fn frequency_index(f: int) -> int {
    if f > 0 {
        2 * f - 1
    } else {
        -2 * f
    }
}

/// The list 0, 1, -1, 2, -2, ... up to `num_terms` and its negative holds
/// every frequency from `-num_terms` to `num_terms` once: each has its
/// position, and each position holds the frequency that belongs there.
pub proof fn lemma_frequencies_complete(num_terms: int)
    requires
        0 <= num_terms,
    ensures
        forall|f: int|
            -num_terms <= f <= num_terms ==> 0 <= #[trigger] frequency_index(f) < 2 * num_terms + 1
                && frequency_at(frequency_index(f)) == f,
        forall|i: int|
            0 <= i < 2 * num_terms + 1 ==> -num_terms <= #[trigger] frequency_at(i) <= num_terms
                && frequency_index(frequency_at(i)) == i,
{
}

/// The frequencies of a decomposition with `num_terms` terms on either side
/// of the constant term: 0, 1, -1, 2, -2, ..., `num_terms`, `-num_terms`.
pub fn frequencies(num_terms: usize) -> (freqs: Vec<i32>)
    requires
        num_terms <= i32::MAX,
    ensures
        freqs.len() == 2 * num_terms + 1,
        forall|i: int| 0 <= i < freqs.len() ==> #[trigger] freqs@[i] == frequency_at(i),
{
    let mut freqs: Vec<i32> = Vec::new();
    freqs.push(0);
    let mut k: i32 = 0;
    while (k as usize) < num_terms
        invariant
            0 <= k <= num_terms <= i32::MAX,
            freqs.len() == 2 * k + 1,
            forall|i: int| 0 <= i < freqs.len() ==> #[trigger] freqs@[i] == frequency_at(i),
        decreases num_terms - k,
    {
        k += 1;
        freqs.push(k);
        freqs.push(-k);
    }
    freqs
}

/// Whether the term `a` is drawn before the term `b`: it is larger, or as
/// large and computed earlier.
pub open spec fn precedes(keys: Seq<u64>, a: int, b: int) -> bool {
    keys[a] > keys[b] || (keys[a] == keys[b] && a < b)
}

/// Whether the index `a` stands somewhere in `order`.
pub open spec fn occurs(order: Seq<usize>, a: int) -> bool {
    exists|i: int| 0 <= i < order.len() && #[trigger] order[i] == a
}

/// Whether `order` lists every index of `keys` once, each before all those
/// that it precedes.
pub open spec fn is_descending_order(keys: Seq<u64>, order: Seq<usize>) -> bool {
    &&& order.len() == keys.len()
    &&& forall|i: int| 0 <= i < order.len() ==> (#[trigger] order[i]) < keys.len()
    &&& forall|i: int, j: int|
        0 <= i < j < order.len() ==> precedes(keys, #[trigger] order[i] as int, #[trigger] order[j] as int)
    &&& forall|a: int| 0 <= a < keys.len() ==> #[trigger] occurs(order, a)
}

/// Along a descending order the keys never grow.
pub proof fn lemma_keys_non_increasing(keys: Seq<u64>, order: Seq<usize>)
    requires
        is_descending_order(keys, order),
    ensures
        forall|i: int, j: int|
            0 <= i <= j < order.len() ==> keys[#[trigger] order[i] as int] >= keys[#[trigger] order[j] as int],
{
    assert forall|i: int, j: int| 0 <= i <= j < order.len() implies keys[#[trigger] order[i] as int]
        >= keys[#[trigger] order[j] as int] by {
        if i < j {
            assert(precedes(keys, order[i] as int, order[j] as int));
        }
    }
}

/// There is only one descending order of given keys.
pub proof fn lemma_descending_order_unique(keys: Seq<u64>, first: Seq<usize>, second: Seq<usize>)
    requires
        is_descending_order(keys, first),
        is_descending_order(keys, second),
    ensures
        first == second,
{
    lemma_same_prefix(keys, first, second, keys.len() as int);
    assert(first =~= second);
}

proof fn lemma_same_prefix(keys: Seq<u64>, first: Seq<usize>, second: Seq<usize>, n: int)
    requires
        is_descending_order(keys, first),
        is_descending_order(keys, second),
        0 <= n <= keys.len(),
    ensures
        forall|i: int| 0 <= i < n ==> first[i] == second[i],
    decreases n,
{
    if n > 0 {
        lemma_same_prefix(keys, first, second, n - 1);
        let p = n - 1;
        let a = first[p] as int;
        let b = second[p] as int;
        if a != b {
            // `a` stands somewhere in `second`, `b` somewhere in `first`; neither
            // stands before `p`, where the two lists agree, so each comes after
            // the other: a contradiction.
            assert(occurs(second, a) && occurs(first, b));
            let ia = choose|i: int| 0 <= i < second.len() && second[i] == a;
            let ib = choose|i: int| 0 <= i < first.len() && first[i] == b;
            if ia < p {
                assert(first[ia] == second[ia]);
                assert(precedes(keys, first[ia] as int, first[p] as int));
            }
            if ib < p {
                assert(first[ib] == second[ib]);
                assert(precedes(keys, second[ib] as int, second[p] as int));
            }
            assert(ia > p && ib > p);
            assert(precedes(keys, second[p] as int, second[ia] as int));
            assert(precedes(keys, first[p] as int, first[ib] as int));
        }
    }
}

/// The order in which terms with the sizes `keys` are drawn: largest first,
/// and among terms of equal size the one computed first.
pub fn descending_order(keys: &Vec<u64>) -> (order: Vec<usize>)
    ensures
        is_descending_order(keys@, order@),
{
    let n = keys.len();
    let mut order: Vec<usize> = Vec::new();
    let mut k: usize = 0;
    while k < n
        invariant
            k <= n,
            n == keys.len(),
            order.len() == k,
            forall|i: int| 0 <= i < order.len() ==> (#[trigger] order@[i]) < k,
            forall|i: int, j: int|
                0 <= i < j < order.len() ==> precedes(
                    keys@,
                    #[trigger] order@[i] as int,
                    #[trigger] order@[j] as int,
                ),
            forall|a: int| 0 <= a < k ==> #[trigger] occurs(order@, a),
        decreases n - k,
    {
        let key = keys[k];
        let mut p: usize = 0;
        while p < order.len() && keys[order[p]] >= key
            invariant
                p <= order.len(),
                order.len() == k,
                k < n,
                n == keys.len(),
                key == keys@[k as int],
                forall|i: int| 0 <= i < order.len() ==> (#[trigger] order@[i]) < k,
                forall|i: int| 0 <= i < p ==> keys@[#[trigger] order@[i] as int] >= key,
            decreases order.len() - p,
        {
            p += 1;
        }
        let ghost before = order@;
        order.insert(p, k);
        proof {
            let after = order@;
            assert(after == before.insert(p as int, k));
            assert forall|i: int, j: int| 0 <= i < j < after.len() implies precedes(
                keys@,
                #[trigger] after[i] as int,
                #[trigger] after[j] as int,
            ) by {
                if j < p {
                    assert(after[i] == before[i] && after[j] == before[j]);
                } else if j == p {
                    assert(after[i] == before[i]);
                } else if i < p {
                    assert(after[i] == before[i] && after[j] == before[j - 1]);
                } else if i == p {
                    assert(after[j] == before[j - 1]);
                    if j - 1 > p {
                        assert(precedes(keys@, before[p as int] as int, before[j - 1] as int));
                    }
                } else {
                    assert(after[i] == before[i - 1] && after[j] == before[j - 1]);
                }
            }
            assert forall|a: int| 0 <= a < k + 1 implies #[trigger] occurs(after, a) by {
                if a == k {
                    assert(after[p as int] == a);
                } else {
                    assert(occurs(before, a));
                    let i0 = choose|i: int| 0 <= i < before.len() && before[i] == a;
                    if i0 < p {
                        assert(after[i0] == a);
                    } else {
                        assert(after[i0 + 1] == a);
                    }
                }
            }
            assert forall|i: int| 0 <= i < after.len() implies (#[trigger] after[i]) < k + 1 by {
                if i < p {
                    assert(after[i] == before[i]);
                } else if i > p {
                    assert(after[i] == before[i - 1]);
                }
            }
        }
        k += 1;
    }
    order
}

} // verus!
