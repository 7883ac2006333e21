//! The tax splitter: the protocol tax on a swap and its division among the
//! four destination pools, in exact integer arithmetic.

use vstd::prelude::*;
use crate::error::SafePumpError;

verus! {

/// One hundred percent, in basis points.
pub const BPS_DENOMINATOR: u64 = 10_000;

/// The protocol tax on every swap, in basis points.
pub const GLOBAL_TAX_BPS: u64 = 250;

/// The part of the tax that goes to the liquidity pool.
pub const GLOBAL_LP_TAX_BPS: u64 = 100;

/// The part of the tax that rewards swappers.
pub const SWAPPER_REWARD_TAX_BPS: u64 = 80;

/// The part of the tax that rewards badge holders.
pub const BADGE_REWARD_TAX_BPS: u64 = 20;

/// The part of the tax that goes to the treasury.
pub const TREASURY_TAX_BPS: u64 = 50;

/// Place of the liquidity-pool share among the allocations.
pub const LP_SHARE: usize = 0;

/// Place of the swapper-reward share among the allocations.
pub const SWAPPER_SHARE: usize = 1;

/// Place of the badge-reward share among the allocations.
pub const BADGE_SHARE: usize = 2;

/// Place of the treasury share among the allocations.
pub const TREASURY_SHARE: usize = 3;

/// The tax on one swap: the whole tax, what is left for the exchange leg, and
/// the four shares in the order liquidity pool, swapper rewards, badge
/// rewards, treasury.
#[derive(Clone, Copy, Debug)]
pub struct TaxSplit {
    pub total_tax: u64,
    pub net_amount: u64,
    pub allocations: [u64; 4],
}

/// The tax on `amount` at `total_tax_bps` basis points, rounded down.
pub open spec fn total_tax_of(amount: u64, total_tax_bps: u64) -> int {
    (amount as int * total_tax_bps as int) / 10_000
}

/// The share of `total_tax` that `sub_bps` out of `total_tax_bps` gives,
/// rounded down; nothing where the tax rate is zero.
pub open spec fn allocation_of(total_tax: int, sub_bps: u64, total_tax_bps: u64) -> int {
    if total_tax_bps == 0 {
        0
    } else {
        (total_tax * sub_bps as int) / (total_tax_bps as int)
    }
}

/// Whether the tax leaves a remainder and every share fits in 64 bits.
pub open spec fn tax_fits(amount: u64, total_tax_bps: u64, sub_bps: Seq<u64>) -> bool {
    &&& total_tax_of(amount, total_tax_bps) <= amount
    &&& forall|i: int|
        0 <= i < 4 ==> #[trigger] allocation_of(
            total_tax_of(amount, total_tax_bps),
            sub_bps[i],
            total_tax_bps,
        ) <= u64::MAX
}

/// Whether `split` is the tax on `amount` under the given rates.
pub open spec fn is_tax_split(
    split: TaxSplit,
    amount: u64,
    total_tax_bps: u64,
    sub_bps: Seq<u64>,
) -> bool {
    &&& split.total_tax == total_tax_of(amount, total_tax_bps)
    &&& split.net_amount == amount - split.total_tax
    &&& forall|i: int|
        0 <= i < 4 ==> #[trigger] split.allocations@[i] == allocation_of(
            split.total_tax as int,
            sub_bps[i],
            total_tax_bps,
        )
}

proof fn lemma_product_fits(a: u64, b: u64)
    ensures
        0 <= a as int * b as int <= 0xFFFF_FFFF_FFFF_FFFF * 0xFFFF_FFFF_FFFF_FFFF,
        a as int * b as int <= u128::MAX,
{
    assert(0 <= a as int * b as int <= 0xFFFF_FFFF_FFFF_FFFF * 0xFFFF_FFFF_FFFF_FFFF)
        by (nonlinear_arith)
        requires
            0 <= a <= 0xFFFF_FFFF_FFFF_FFFF,
            0 <= b <= 0xFFFF_FFFF_FFFF_FFFF,
    ;
}

/// `a * b / d` for 64-bit factors, computed without loss.
pub fn mul_div(a: u64, b: u64, d: u64) -> (q: u128)
    requires
        d > 0,
    ensures
        q == (a as int * b as int) / (d as int),
{
    proof {
        lemma_product_fits(a, b);
    }
    (a as u128) * (b as u128) / (d as u128)
}

/// Splits the tax on `amount`. The whole tax is `amount * total_tax_bps /
/// 10000`; share `i` is `total_tax * sub_allocation_bps[i] / total_tax_bps`;
/// the net amount is `amount - total_tax`, whatever the shares round to.
/// Fails with `Overflow` when the tax exceeds the amount or a share does not
/// fit in 64 bits.
pub fn apply_tax(amount: u64, total_tax_bps: u64, sub_allocation_bps: &[u64; 4]) -> (r: Result<
    TaxSplit,
    SafePumpError,
>)
    ensures
        r is Ok <==> tax_fits(amount, total_tax_bps, sub_allocation_bps@),
        r matches Ok(split) ==> is_tax_split(split, amount, total_tax_bps, sub_allocation_bps@)
            && split.net_amount + split.total_tax == amount,
        r matches Err(e) ==> e == SafePumpError::Overflow,
{
    let tax_wide: u128 = mul_div(amount, total_tax_bps, BPS_DENOMINATOR);
    if tax_wide > amount as u128 {
        return Err(SafePumpError::Overflow);
    }
    let total_tax: u64 = tax_wide as u64;
    let mut allocations: [u64; 4] = [0u64; 4];
    let mut i: usize = 0;
    while i < 4
        invariant
            0 <= i <= 4,
            total_tax == total_tax_of(amount, total_tax_bps),
            total_tax <= amount,
            forall|j: int|
                0 <= j < i ==> #[trigger] allocations@[j] == allocation_of(
                    total_tax as int,
                    sub_allocation_bps@[j],
                    total_tax_bps,
                ),
        decreases 4 - i,
    {
        let share: u128 = if total_tax_bps == 0 {
            0
        } else {
            mul_div(total_tax, sub_allocation_bps[i], total_tax_bps)
        };
        if share > u64::MAX as u128 {
            assert(allocation_of(
                total_tax_of(amount, total_tax_bps),
                sub_allocation_bps@[i as int],
                total_tax_bps,
            ) > u64::MAX);
            return Err(SafePumpError::Overflow);
        }
        allocations[i] = share as u64;
        i += 1;
    }
    proof {
        assert forall|j: int| 0 <= j < 4 implies #[trigger] allocation_of(
            total_tax_of(amount, total_tax_bps),
            sub_allocation_bps@[j],
            total_tax_bps,
        ) <= u64::MAX by {
            assert(allocations@[j] <= u64::MAX);
        }
    }
    Ok(TaxSplit { total_tax, net_amount: amount - total_tax, allocations })
}

/// The four protocol shares, in the order of the allocations.
pub fn global_tax_shares() -> (shares: [u64; 4])
    ensures
        shares@ == seq![
            GLOBAL_LP_TAX_BPS,
            SWAPPER_REWARD_TAX_BPS,
            BADGE_REWARD_TAX_BPS,
            TREASURY_TAX_BPS,
        ],
{
    let shares = [
        GLOBAL_LP_TAX_BPS,
        SWAPPER_REWARD_TAX_BPS,
        BADGE_REWARD_TAX_BPS,
        TREASURY_TAX_BPS,
    ];
    assert(shares@ =~= seq![
        GLOBAL_LP_TAX_BPS,
        SWAPPER_REWARD_TAX_BPS,
        BADGE_REWARD_TAX_BPS,
        TREASURY_TAX_BPS,
    ]);
    shares
}

/// The protocol tax on `amount`, split at the protocol's own rates. At these
/// rates the split exists for every amount.
pub fn apply_global_tax(amount: u64) -> (split: TaxSplit)
    ensures
        is_tax_split(split, amount, GLOBAL_TAX_BPS, global_tax_rates()),
        split.net_amount + split.total_tax == amount,
{
    let shares = global_tax_shares();
    proof {
        lemma_global_tax_fits(amount);
    }
    match apply_tax(amount, GLOBAL_TAX_BPS, &shares) {
        Ok(split) => split,
        Err(_) => {
            proof {
                assert(false);
            }
            TaxSplit { total_tax: 0, net_amount: amount, allocations: [0u64; 4] }
        },
    }
}

/// The protocol's four shares as a sequence.
pub open spec fn global_tax_rates() -> Seq<u64> {
    seq![GLOBAL_LP_TAX_BPS, SWAPPER_REWARD_TAX_BPS, BADGE_REWARD_TAX_BPS, TREASURY_TAX_BPS]
}

/// At the protocol's rates the tax never exceeds the amount and every share
/// fits.
pub proof fn lemma_global_tax_fits(amount: u64)
    ensures
        tax_fits(amount, GLOBAL_TAX_BPS, global_tax_rates()),
{
    let tax = total_tax_of(amount, GLOBAL_TAX_BPS);
    assert(0 <= tax <= amount) by (nonlinear_arith)
        requires
            tax == (amount as int * 250) / 10_000,
            amount >= 0,
    ;
    assert forall|i: int| 0 <= i < 4 implies #[trigger] allocation_of(
        tax,
        global_tax_rates()[i],
        GLOBAL_TAX_BPS,
    ) <= u64::MAX by {
        let s = global_tax_rates()[i];
        assert(s <= 250);
        assert((tax * s as int) / 250 <= tax) by (nonlinear_arith)
            requires
                0 <= tax,
                0 <= s <= 250,
        ;
    }
}

/// The sum of the four shares of a split.
pub open spec fn allocation_sum(split: TaxSplit) -> int {
    split.allocations@[0] + split.allocations@[1] + split.allocations@[2] + split.allocations@[3]
}

/// A tax split gives away neither more nor less than the amount: the net
/// amount and the whole tax add up to it.
pub proof fn lemma_net_plus_tax(split: TaxSplit, amount: u64, total_tax_bps: u64, sub_bps: Seq<u64>)
    requires
        is_tax_split(split, amount, total_tax_bps, sub_bps),
    ensures
        split.net_amount + split.total_tax == amount,
{
}

/// Where the four rates together do not exceed the whole rate, the four
/// shares together do not exceed the whole tax.
pub proof fn lemma_allocations_within_tax(
    split: TaxSplit,
    amount: u64,
    total_tax_bps: u64,
    sub_bps: Seq<u64>,
)
    requires
        sub_bps.len() == 4,
        is_tax_split(split, amount, total_tax_bps, sub_bps),
        sub_bps[0] + sub_bps[1] + sub_bps[2] + sub_bps[3] <= total_tax_bps,
    ensures
        allocation_sum(split) <= split.total_tax,
{
    let t = split.total_tax as int;
    let b = total_tax_bps as int;
    let a0 = split.allocations@[0] as int;
    let a1 = split.allocations@[1] as int;
    let a2 = split.allocations@[2] as int;
    let a3 = split.allocations@[3] as int;
    if total_tax_bps == 0 {
        assert(a0 == 0 && a1 == 0 && a2 == 0 && a3 == 0);
    } else {
        lemma_floor_share(t, sub_bps[0] as int, b);
        lemma_floor_share(t, sub_bps[1] as int, b);
        lemma_floor_share(t, sub_bps[2] as int, b);
        lemma_floor_share(t, sub_bps[3] as int, b);
        let s = sub_bps[0] + sub_bps[1] + sub_bps[2] + sub_bps[3];
        assert((a0 + a1 + a2 + a3) * b <= t * s) by (nonlinear_arith)
            requires
                a0 * b <= t * sub_bps[0],
                a1 * b <= t * sub_bps[1],
                a2 * b <= t * sub_bps[2],
                a3 * b <= t * sub_bps[3],
                s == sub_bps[0] + sub_bps[1] + sub_bps[2] + sub_bps[3],
        ;
        assert(a0 + a1 + a2 + a3 <= t) by (nonlinear_arith)
            requires
                (a0 + a1 + a2 + a3) * b <= t * s,
                0 <= s <= b,
                b > 0,
                t >= 0,
        ;
    }
}

proof fn lemma_floor_share(t: int, s: int, b: int)
    requires
        t >= 0,
        s >= 0,
        b > 0,
    ensures
        ((t * s) / b) * b <= t * s,
        0 <= (t * s) / b,
{
    assert(((t * s) / b) * b <= t * s && 0 <= (t * s) / b) by (nonlinear_arith)
        requires
            t * s >= 0,
            b > 0,
    ;
}

} // verus!
