use vstd::prelude::*;
use vstd::relations::{sorted_by, total_ordering};
use vstd::multiset::group_multiset_axioms;
use vstd::seq_lib::{
    group_to_multiset_ensures, lemma_sorted_unique, to_multiset_contains,
    to_multiset_update,
};

verus! {

/// A percentage change between neighbouring fees from which the estimate
/// ignores the cheaper fees below the jump.
pub const FEE_ESTIMATION_THRESHOLD_MAX_CHANGE: u128 = 200;

/// Base fee up to which a surge doubles it.
pub const SURGE_DOUBLE_MAX: u128 = 40_000_000_000;

/// Base fee up to which a surge multiplies it by 1.6.
pub const SURGE_SIXTEEN_TENTHS_MAX: u128 = 100_000_000_000;

/// Base fee up to which a surge multiplies it by 1.4; beyond it, by 1.2.
pub const SURGE_FOURTEEN_TENTHS_MAX: u128 = 200_000_000_000;

/// The base fee a transaction should be ready to pay if fees surge: the
/// cheaper the current base fee, the larger the margin.
pub open spec fn surged_spec(base: u128) -> int {
    if base <= SURGE_DOUBLE_MAX {
        base * 2
    } else if base <= SURGE_SIXTEEN_TENTHS_MAX {
        base * 16 / 10
    } else if base <= SURGE_FOURTEEN_TENTHS_MAX {
        base * 14 / 10
    } else {
        base * 12 / 10
    }
}

/// Scales the current base fee by its surge margin.
pub fn base_fee_surged(base_fee_per_gas: u128) -> (r: u128)
    requires
        base_fee_per_gas * 12 <= u128::MAX,
    ensures
        r == surged_spec(base_fee_per_gas),
{
    if base_fee_per_gas <= SURGE_DOUBLE_MAX {
        base_fee_per_gas * 2
    } else if base_fee_per_gas <= SURGE_SIXTEEN_TENTHS_MAX {
        base_fee_per_gas * 16 / 10
    } else if base_fee_per_gas <= SURGE_FOURTEEN_TENTHS_MAX {
        base_fee_per_gas * 14 / 10
    } else {
        base_fee_per_gas * 12 / 10
    }
}

/// The largest fee a transaction offers: the priority fee on top of the
/// surged base fee where it exceeds it, else the surged base fee.
pub fn max_fee(max_priority_fee_per_gas: u128, potential_max_fee: u128) -> (r: Option<u128>)
    ensures
        max_priority_fee_per_gas > potential_max_fee ==> (r is Some <==> max_priority_fee_per_gas
            + potential_max_fee <= u128::MAX),
        max_priority_fee_per_gas > potential_max_fee && r is Some ==> r->0
            == max_priority_fee_per_gas + potential_max_fee,
        max_priority_fee_per_gas <= potential_max_fee ==> r == Some(potential_max_fee),
{
    if max_priority_fee_per_gas > potential_max_fee {
        max_priority_fee_per_gas.checked_add(potential_max_fee)
    } else {
        Some(potential_max_fee)
    }
}

pub open spec fn fee_leq() -> spec_fn(u128, u128) -> bool {
    |x: u128, y: u128| x <= y
}

/// The first reward of each block, where it is positive, in block order.
pub open spec fn positive_firsts(rewards: Seq<Vec<u128>>) -> Seq<u128>
    decreases rewards.len(),
{
    if rewards.len() == 0 {
        Seq::empty()
    } else {
        let rest = positive_firsts(rewards.drop_last());
        if rewards.last()@[0] > 0 {
            rest.push(rewards.last()@[0])
        } else {
            rest
        }
    }
}

/// The percentage change from `t[i]` to `t[i + 1]`, rounded toward zero.
pub open spec fn change_at(t: Seq<u128>, i: int) -> int {
    (t[i + 1] - t[i]) * 100 / (t[i] as int)
}

/// The largest change among the first `k` neighbouring pairs, and the first
/// pair where it occurs.
pub open spec fn max_change_upto(t: Seq<u128>, k: nat) -> (int, int)
    decreases k,
{
    if k <= 1 {
        (change_at(t, 0), 0)
    } else {
        let (m, i) = max_change_upto(t, (k - 1) as nat);
        if change_at(t, k - 1) > m {
            (change_at(t, k - 1), k - 1)
        } else {
            (m, i)
        }
    }
}

/// The priority-fee estimate from the sorted positive rewards `t`: the median,
/// taken above the largest jump in fees where that jump is steep and lies in
/// the upper half.
pub open spec fn priority_from_sorted(t: Seq<u128>) -> u128 {
    if t.len() == 0 {
        0
    } else if t.len() == 1 {
        t[0]
    } else {
        let (m, i) = max_change_upto(t, (t.len() - 1) as nat);
        let v = if m >= FEE_ESTIMATION_THRESHOLD_MAX_CHANGE && i >= t.len() as int / 2 {
            t.subrange(i, t.len() as int)
        } else {
            t
        };
        v[(v.len() / 2) as int]
    }
}

fn sort_fees(v: &mut Vec<u128>)
    ensures
        sorted_by(final(v)@, fee_leq()),
        final(v)@.to_multiset() == old(v)@.to_multiset(),
{
    broadcast use group_to_multiset_ensures, group_multiset_axioms;

    let n = v.len();
    if n == 0 {
        return;
    }
    let ghost orig = v@;
    let mut i: usize = 1;
    while i < n
        invariant
            n == v@.len(),
            1 <= i <= n,
            v@.to_multiset() == orig.to_multiset(),
            forall|a: int, b: int| 0 <= a < b < i ==> v@[a] <= v@[b],
        decreases n - i,
    {
        let mut j: usize = i;
        while j > 0 && v[j - 1] > v[j]
            invariant
                n == v@.len(),
                0 <= j <= i < n,
                v@.to_multiset() == orig.to_multiset(),
                forall|a: int, b: int| 0 <= a < b <= i && a != j && b != j ==> v@[a] <= v@[b],
                forall|b: int| j < b <= i ==> v@[j as int] <= v@[b],
            decreases j,
        {
            let x = v[j];
            let y = v[j - 1];
            let ghost before = v@;
            v.set(j - 1, x);
            v.set(j, y);
            let ghost mid = before.update(j - 1, x);
            assert(v@ == mid.update(j as int, y));
            proof {
                to_multiset_update(before, j - 1, x);
                to_multiset_update(mid, j as int, y);
            }
            assert(mid.to_multiset() == before.to_multiset().insert(x).remove(y));
            assert(v@.to_multiset() == mid.to_multiset().insert(y).remove(x));
            assert(before.contains(y)) by {
                assert(before[j - 1] == y);
            }
            proof {
                to_multiset_contains(before, y);
            }
            assert forall|a: u128| #[trigger] v@.to_multiset().count(a) == before.to_multiset().count(
                a,
            ) by {}
            assert(v@.to_multiset() =~= before.to_multiset());
            j = j - 1;
        }
        assert forall|a: int, b: int| 0 <= a < b <= i implies v@[a] <= v@[b] by {
            if b == j && a < j - 1 {
                assert(v@[a] <= v@[j - 1]);
            }
        }
        i = i + 1;
    }
    assert(sorted_by(v@, fee_leq())) by {
        assert forall|a: int, b: int| 0 <= a < b < v@.len() implies #[trigger] fee_leq()(
            v@[a],
            v@[b],
        ) by {}
    }
}

proof fn lemma_fee_leq_total()
    ensures
        total_ordering(fee_leq()),
{
}

/// Estimates a priority fee from the rewards of recent blocks: of each block
/// the first reward counts where it is positive.
pub fn estimate_priority_fee(rewards: Vec<Vec<u128>>) -> (r: u128)
    requires
        forall|i: int| 0 <= i < rewards@.len() ==> (#[trigger] rewards@[i])@.len() > 0,
        forall|i: int| 0 <= i < rewards@.len() ==> (#[trigger] rewards@[i])@[0] <= u128::MAX / 100,
    ensures
        r == priority_from_sorted(positive_firsts(rewards@).sort_by(fee_leq())),
{
    broadcast use group_to_multiset_ensures;

    let mut fees: Vec<u128> = Vec::new();
    let mut k: usize = 0;
    while k < rewards.len()
        invariant
            k <= rewards@.len(),
            forall|i: int| 0 <= i < rewards@.len() ==> (#[trigger] rewards@[i])@.len() > 0,
            forall|i: int| 0 <= i < rewards@.len() ==> (#[trigger] rewards@[i])@[0] <= u128::MAX
                / 100,
            fees@ == positive_firsts(rewards@.subrange(0, k as int)),
            forall|i: int| 0 <= i < fees@.len() ==> 0 < #[trigger] fees@[i] <= u128::MAX / 100,
        decreases rewards@.len() - k,
    {
        assert(rewards@.subrange(0, k + 1).drop_last() =~= rewards@.subrange(0, k as int));
        let first = rewards[k][0];
        if first > 0 {
            fees.push(first);
        }
        k = k + 1;
    }
    assert(rewards@.subrange(0, rewards@.len() as int) =~= rewards@);
    let ghost firsts = fees@;
    sort_fees(&mut fees);
    proof {
        lemma_fee_leq_total();
        firsts.lemma_sort_by_ensures(fee_leq());
        lemma_sorted_unique(fees@, firsts.sort_by(fee_leq()), fee_leq());
        assert forall|i: int| 0 <= i < fees@.len() implies 0 < #[trigger] fees@[i] <= u128::MAX
            / 100 by {
            assert(fees@.contains(fees@[i]));
            assert(fees@.to_multiset().count(fees@[i]) > 0);
            assert(firsts.to_multiset().count(fees@[i]) > 0);
            assert(firsts.contains(fees@[i]));
        }
    }
    let ghost t = fees@;
    let n = fees.len();
    if n == 0 {
        return 0;
    }
    if n == 1 {
        return fees[0];
    }
    assert(fee_leq()(t[0], t[1]));
    let mut best: u128 = (fees[1] - fees[0]) * 100 / fees[0];
    let mut best_at: usize = 0;
    let mut p: usize = 1;
    while p < n - 1
        invariant
            t == fees@,
            n == t.len() >= 2,
            1 <= p <= n - 1,
            forall|i: int| 0 <= i < t.len() ==> 0 < #[trigger] t[i] <= u128::MAX / 100,
            sorted_by(t, fee_leq()),
            (best as int, best_at as int) == max_change_upto(t, p as nat),
            best_at < p,
        decreases n - 1 - p,
    {
        assert(fee_leq()(t[p as int], t[p + 1]));
        let c: u128 = (fees[p + 1] - fees[p]) * 100 / fees[p];
        if c > best {
            best = c;
            best_at = p;
        }
        p = p + 1;
    }
    if best >= FEE_ESTIMATION_THRESHOLD_MAX_CHANGE && best_at >= n / 2 {
        assert(t.subrange(best_at as int, n as int)[((n - best_at) / 2) as int] == t[best_at + (n
            - best_at) / 2]);
        fees[best_at + (n - best_at) / 2]
    } else {
        fees[n / 2]
    }
}

} // verus!
