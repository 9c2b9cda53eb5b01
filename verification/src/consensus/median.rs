//! The middle of what the validators say.
use vstd::prelude::*;
use vstd::relations::{sorted_by, total_ordering};

verus! {

pub open spec fn at_most() -> spec_fn(u32, u32) -> bool {
    |a: u32, b: u32| a <= b
}

/// The values in ascending order.
pub open spec fn in_order(values: Seq<u32>) -> Seq<u32> {
    values.sort_by(at_most())
}

proof fn in_order_is_the_only_order(values: Seq<u32>, ordered: Seq<u32>)
    requires
        sorted_by(ordered, at_most()),
        ordered.to_multiset() == values.to_multiset(),
    ensures
        ordered == in_order(values),
{
    assert(total_ordering(at_most()));
    values.lemma_sort_by_ensures(at_most());
    vstd::seq_lib::lemma_sorted_unique(ordered, in_order(values), at_most());
}

/// Puts values into ascending order.
pub fn sort_values(values: &Vec<u32>) -> (r: Vec<u32>)
    ensures
        r@ == in_order(values@),
        r@.len() == values@.len(),
{
    let mut ordered: Vec<u32> = Vec::new();
    let mut i: usize = 0;
    let ghost all = values@;
    proof {
        assert(ordered@.to_multiset() =~= all.take(0).to_multiset()) by {
            assert(ordered@ =~= all.take(0));
        }
    }
    while i < values.len()
        invariant
            all == values@,
            i <= all.len(),
            ordered@.len() == i,
            sorted_by(ordered@, at_most()),
            ordered@.to_multiset() == all.take(i as int).to_multiset(),
        decreases all.len() - i,
    {
        let value: u32 = values[i];
        let mut p: usize = 0;
        while p < ordered.len() && ordered[p] <= value
            invariant
                p <= ordered@.len(),
                forall|j: int| 0 <= j < p ==> #[trigger] ordered@[j] <= value,
            decreases ordered@.len() - p,
        {
            p = p + 1;
        }
        let ghost before = ordered@;
        ordered.insert(p, value);
        proof {
            assert(ordered@ == before.insert(p as int, value));
            vstd::seq_lib::to_multiset_insert(before, p as int, value);
            vstd::seq_lib::to_multiset_build(all.take(i as int), value);
            assert(all.take(i as int + 1) =~= all.take(i as int).push(value));
            assert forall|j: int, k: int| 0 <= j < k < ordered@.len() implies #[trigger] at_most()(
                ordered@[j],
                ordered@[k],
            ) by {
                let x = if j < p {
                    before[j]
                } else if j == p {
                    value
                } else {
                    before[j - 1]
                };
                let y = if k < p {
                    before[k]
                } else if k == p {
                    value
                } else {
                    before[k - 1]
                };
                assert(ordered@[j] == x && ordered@[k] == y);
                if p < before.len() {
                    assert(before[p as int] > value);
                }
                if k < p {
                    assert(at_most()(before[j], before[k]));
                } else if j >= p && k - 1 > p {
                    assert(at_most()(before[p as int], before[k - 1]));
                    if j > p {
                        assert(at_most()(before[j - 1], before[k - 1]));
                    }
                } else if j < p && k > p {
                    assert(at_most()(before[j], before[k - 1]));
                }
            }
        }
        i = i + 1;
    }
    proof {
        assert(all.take(i as int) =~= all);
        in_order_is_the_only_order(all, ordered@);
    }
    ordered
}

/// The middle of the values: the mean of the two in the middle where their number is even.
pub open spec fn middle(values: Seq<u32>) -> u32 {
    let ordered = in_order(values);
    let low = ordered[(values.len() - 1) / 2];
    let high = ordered[values.len() as int / 2];
    (low + (high - low) / 2) as u32
}

/// When a ledger was validated: the middle of the times at which the validators signed, or the
/// fallback where too few did.
pub fn median_validation_sign_time(sign_times: Vec<u32>, quorum: usize, fallback: u32) -> (r: u32)
    ensures
        r == (if quorum == 0 || sign_times@.len() < quorum {
            fallback
        } else {
            middle(sign_times@)
        }),
{
    if quorum == 0 || sign_times.len() < quorum {
        return fallback;
    }
    let ordered = sort_values(&sign_times);
    let low_index: usize = (ordered.len() - 1) / 2;
    let high_index: usize = ordered.len() / 2;
    let low: u32 = ordered[low_index];
    let high: u32 = ordered[high_index];
    proof {
        in_order_ascends(sign_times@, low_index as int, high_index as int);
    }
    low.saturating_add((high - low) / 2)
}

proof fn in_order_ascends(values: Seq<u32>, i: int, j: int)
    requires
        0 <= i <= j < in_order(values).len(),
    ensures
        in_order(values)[i] <= in_order(values)[j],
{
    assert(total_ordering(at_most()));
    values.lemma_sort_by_ensures(at_most());
    if i < j {
        assert(at_most()(in_order(values)[i], in_order(values)[j]));
    }
}

/// The fee that the validators of a ledger and of its parent ask for: the one in the middle, or
/// the base where nobody asks.
pub fn remote_fee(ledger_fees: Vec<u32>, parent_fees: Vec<u32>, load_base: u32) -> (r: u32)
    requires
        ledger_fees@.len() + parent_fees@.len() <= usize::MAX,
    ensures
        ({
            let fees = ledger_fees@ + parent_fees@;
            r == (if fees.len() == 0 {
                load_base
            } else {
                in_order(fees)[fees.len() as int / 2]
            })
        }),
{
    let mut fees = ledger_fees;
    let mut i: usize = 0;
    while i < parent_fees.len()
        invariant
            i <= parent_fees@.len(),
            fees@ == ledger_fees@ + parent_fees@.take(i as int),
        decreases parent_fees@.len() - i,
    {
        fees.push(parent_fees[i]);
        i = i + 1;
        proof {
            assert(parent_fees@.take(i as int) =~= parent_fees@.take(i - 1).push(parent_fees@[i - 1]));
            assert(fees@ =~= ledger_fees@ + parent_fees@.take(i as int));
        }
    }
    proof {
        assert(parent_fees@.take(i as int) =~= parent_fees@);
    }
    let ordered = sort_values(&fees);
    if ordered.len() == 0 {
        load_base
    } else {
        ordered[ordered.len() / 2]
    }
}

/// The middle lies between two of the values: some validator signed no later, and some signed no
/// earlier.
pub proof fn middle_is_within_the_sample(values: Seq<u32>)
    requires
        values.len() > 0,
    ensures
        exists|i: int| 0 <= i < values.len() && #[trigger] values[i] <= middle(values),
        exists|i: int| 0 <= i < values.len() && #[trigger] values[i] >= middle(values),
{
    assert(total_ordering(at_most()));
    values.lemma_sort_by_ensures(at_most());
    let ordered = in_order(values);
    assert(ordered.len() == values.len()) by {
        vstd::seq_lib::to_multiset_len(values);
        vstd::seq_lib::to_multiset_len(ordered);
    }
    let low = ordered[(values.len() - 1) / 2];
    let high = ordered[values.len() as int / 2];
    in_order_ascends(values, (values.len() - 1) / 2, values.len() as int / 2);
    assert(ordered.contains(low) && ordered.contains(high));
    assert(values.contains(low) && values.contains(high));
    let i = choose|i: int| 0 <= i < values.len() && values[i] == low;
    let j = choose|j: int| 0 <= j < values.len() && values[j] == high;
    assert(values[i] <= middle(values));
    assert(values[j] >= middle(values));
}

/// Only the sample counts, not the order in which it came.
pub proof fn middle_ignores_order(a: Seq<u32>, b: Seq<u32>)
    requires
        a.to_multiset() == b.to_multiset(),
    ensures
        a.len() > 0 ==> middle(a) == middle(b),
{
    assert(total_ordering(at_most()));
    a.lemma_sort_by_ensures(at_most());
    in_order_is_the_only_order(b, in_order(a));
    vstd::seq_lib::to_multiset_len(a);
    vstd::seq_lib::to_multiset_len(b);
}

} // verus!
