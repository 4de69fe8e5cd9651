//! Funded percentage and reclaim eligibility of a proposal.
use vstd::prelude::*;

verus! {

/// The share of the goal a proposal must exceed, in percent, before its
/// owner may reclaim the funds.
pub const RECLAIM_THRESHOLD: u128 = 75;

/// Funded percentage: `funds * 100 / amount_needed`, rounded down.
pub open spec fn percentage_of(funds: int, amount_needed: int) -> int {
    (funds * 100) / amount_needed
}

/// Whether a proposal with these amounts is past the reclaim threshold.
pub open spec fn reclaimable_at(funds: int, amount_needed: int) -> bool {
    percentage_of(funds, amount_needed) > RECLAIM_THRESHOLD as int
}

/// Computes `funds * 100 / amount_needed`, rounded down, without forming
/// the product: `funds * 100` may not fit in a `u128`.
pub fn funds_percentage(funds: u128, amount_needed: u128) -> (p: u128)
    requires
        0 < amount_needed,
        funds <= amount_needed,
    ensures
        p as int == percentage_of(funds as int, amount_needed as int),
        p <= 100,
{
    if funds == amount_needed {
        assert((funds as int * 100) / (amount_needed as int) == 100) by (nonlinear_arith)
            requires funds == amount_needed, 0 < amount_needed;
        return 100;
    }
    // Adds `funds` to itself a hundred times modulo `amount_needed`,
    // counting the wrap-arounds.
    let gap: u128 = amount_needed - funds;
    let mut quotient: u128 = 0;
    let mut rem: u128 = 0;
    let mut k: u128 = 0;
    while k < 100
        invariant
            funds < amount_needed,
            gap == amount_needed - funds,
            k <= 100,
            quotient <= k,
            rem < amount_needed,
            k * funds == quotient * amount_needed + rem,
        decreases 100 - k,
    {
        proof {
            assert((k as int + 1) * funds == k as int * funds + funds) by (nonlinear_arith);
            assert((quotient as int + 1) * amount_needed == quotient as int * amount_needed
                + amount_needed) by (nonlinear_arith);
        }
        if rem >= gap {
            rem = rem - gap;
            quotient = quotient + 1;
        } else {
            rem = rem + funds;
        }
        k = k + 1;
    }
    proof {
        vstd::arithmetic::div_mod::lemma_fundamental_div_mod_converse(
            100 * funds as int, amount_needed as int, quotient as int, rem as int);
    }
    quotient
}

/// More funds towards the same goal never give a lower percentage.
pub proof fn lemma_percentage_monotonic(f1: int, f2: int, amount_needed: int)
    requires
        0 <= f1 <= f2,
        0 < amount_needed,
    ensures
        percentage_of(f1, amount_needed) <= percentage_of(f2, amount_needed),
        reclaimable_at(f1, amount_needed) ==> reclaimable_at(f2, amount_needed),
{
    assert(f1 * 100 <= f2 * 100) by (nonlinear_arith)
        requires f1 <= f2;
    vstd::arithmetic::div_mod::lemma_div_is_ordered(f1 * 100, f2 * 100, amount_needed);
}

/// Whether these amounts are past the reclaim threshold.
pub fn is_reclaimable(funds: u128, amount_needed: u128) -> (r: bool)
    requires
        0 < amount_needed,
        funds <= amount_needed,
    ensures
        r == reclaimable_at(funds as int, amount_needed as int),
{
    funds_percentage(funds, amount_needed) > RECLAIM_THRESHOLD
}

} // verus!
