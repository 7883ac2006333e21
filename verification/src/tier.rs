//! The valuation metric of an asset and the tier ladders that turn it into
//! rate limits.

use vstd::prelude::*;

verus! {

/// The smallest units in one unit of the base currency.
pub const LAMPORTS_PER_SOL: u64 = 1_000_000_000;

/// Most that may be bought in one block at each tier, in whole units of the
/// base currency.
pub const FIB_VELOCITY_SOL: [u64; 8] = [1, 3, 7, 15, 30, 70, 150, 300];

/// The thresholds of the velocity ladder, in smallest units: 1, 3, 7, 15, 30,
/// 70, 150 and 300 million units of the base currency.
pub const FIB_MCAP_THRESHOLDS_LAMPORTS: [u64; 8] = [
    1_000_000_000_000_000,
    3_000_000_000_000_000,
    7_000_000_000_000_000,
    15_000_000_000_000_000,
    30_000_000_000_000_000,
    70_000_000_000_000_000,
    150_000_000_000_000_000,
    300_000_000_000_000_000,
];

/// The valuation of an asset: `reserve_quote * total_supply / reserve_base`,
/// rounded down and reduced to 64 bits; zero where the base reserve is empty.
pub open spec fn valuation_of(reserve_quote: u64, total_supply: u64, reserve_base: u64) -> int {
    if reserve_base == 0 {
        0
    } else {
        ((reserve_quote as int * total_supply as int) / (reserve_base as int))
            % 0x1_0000_0000_0000_0000
    }
}

/// Computes the valuation of an asset from its reserves and supply.
pub fn current_valuation(reserve_quote: u64, total_supply: u64, reserve_base: u64) -> (v: u64)
    ensures
        v == valuation_of(reserve_quote, total_supply, reserve_base),
{
    if reserve_base == 0 {
        return 0;
    }
    let wide: u128 = crate::tax::mul_div(reserve_quote, total_supply, reserve_base);
    let low: u128 = wide % 0x1_0000_0000_0000_0000u128;
    low as u64
}

/// Whether rung `i` of the ladder is reached at `valuation`.
pub open spec fn reaches(valuation: u64, thresholds: Seq<u64>, i: int) -> bool {
    0 <= i < thresholds.len() && thresholds[i] <= valuation
}

/// Whether `index` is the tier of `valuation` on the ladder: the highest rung
/// whose threshold is at most the valuation, or rung 0 where none is.
pub open spec fn is_tier_index(valuation: u64, thresholds: Seq<u64>, index: int) -> bool {
    if exists|i: int| reaches(valuation, thresholds, i) {
        &&& reaches(valuation, thresholds, index)
        &&& forall|j: int| index < j ==> !reaches(valuation, thresholds, j)
    } else {
        index == 0
    }
}

/// The tier of `valuation` on the ladder.
pub open spec fn tier_of(valuation: u64, thresholds: Seq<u64>) -> int {
    choose|index: int| is_tier_index(valuation, thresholds, index)
}

/// Selects the tier of `valuation`: the highest rung whose threshold is at
/// most the valuation; rung 0 where the valuation is under every threshold.
pub fn tier_index(valuation: u64, thresholds: &[u64; 8]) -> (index: usize)
    ensures
        index < 8,
        is_tier_index(valuation, thresholds@, index as int),
        index == tier_of(valuation, thresholds@),
{
    let index = find_tier(valuation, thresholds);
    proof {
        lemma_tier_index_unique(
            valuation,
            thresholds@,
            index as int,
            tier_of(valuation, thresholds@),
        );
    }
    index
}

fn find_tier(valuation: u64, thresholds: &[u64; 8]) -> (index: usize)
    ensures
        index < 8,
        is_tier_index(valuation, thresholds@, index as int),
{
    let mut i: usize = 8;
    while i > 0
        invariant
            0 <= i <= 8,
            thresholds@.len() == 8,
            forall|j: int| i <= j ==> !reaches(valuation, thresholds@, j),
        decreases i,
    {
        i -= 1;
        if thresholds[i] <= valuation {
            assert(reaches(valuation, thresholds@, i as int));
            return i;
        }
    }
    0
}

/// A valuation has one tier on a ladder.
pub proof fn lemma_tier_index_unique(valuation: u64, thresholds: Seq<u64>, a: int, b: int)
    requires
        is_tier_index(valuation, thresholds, a),
        is_tier_index(valuation, thresholds, b),
    ensures
        a == b,
{
    if exists|i: int| reaches(valuation, thresholds, i) {
        if a < b {
            assert(!reaches(valuation, thresholds, b));
        }
        if b < a {
            assert(!reaches(valuation, thresholds, a));
        }
    }
}

/// The tier never falls when the valuation rises: a greater valuation has
/// the same tier or a higher one.
pub proof fn lemma_tier_index_monotonic(
    low: u64,
    high: u64,
    thresholds: Seq<u64>,
    low_index: int,
    high_index: int,
)
    requires
        low <= high,
        is_tier_index(low, thresholds, low_index),
        is_tier_index(high, thresholds, high_index),
    ensures
        low_index <= high_index,
{
    if exists|i: int| reaches(low, thresholds, i) {
        assert(reaches(low, thresholds, low_index));
        assert(reaches(high, thresholds, low_index));
        if high_index < low_index {
            assert(!reaches(high, thresholds, low_index));
        }
    } else {
        if exists|i: int| reaches(high, thresholds, i) {
            assert(reaches(high, thresholds, high_index));
        }
    }
}

/// The cap on one block's buys at a tier, in smallest units.
pub open spec fn velocity_cap_at(index: int) -> int {
    FIB_VELOCITY_SOL@[index] * LAMPORTS_PER_SOL
}

/// The cap on one block's buys at a valuation, in smallest units.
pub open spec fn velocity_cap_of(valuation: u64) -> int {
    velocity_cap_at(tier_of(valuation, FIB_MCAP_THRESHOLDS_LAMPORTS@))
}

/// On a ladder with a rung, the tier of a valuation is one of its rungs.
pub proof fn lemma_tier_in_range(valuation: u64, thresholds: Seq<u64>)
    requires
        thresholds.len() > 0,
    ensures
        0 <= tier_of(valuation, thresholds) < thresholds.len(),
        is_tier_index(valuation, thresholds, tier_of(valuation, thresholds)),
{
    lemma_tier_exists(valuation, thresholds, thresholds.len() as int);
}

/// Among the first `n` rungs, either none is reached or one is the highest
/// reached; in both cases the ladder cut after `n` rungs has a tier.
proof fn lemma_tier_exists(valuation: u64, thresholds: Seq<u64>, n: int)
    requires
        0 < n <= thresholds.len(),
    ensures
        exists|index: int|
            0 <= index < n && (if exists|i: int| 0 <= i < n && thresholds[i] <= valuation {
                thresholds[index] <= valuation && forall|j: int|
                    index < j < n ==> thresholds[j] > valuation
            } else {
                index == 0
            }),
        n == thresholds.len() ==> 0 <= tier_of(valuation, thresholds) < n && is_tier_index(
            valuation,
            thresholds,
            tier_of(valuation, thresholds),
        ),
    decreases n,
{
    let found = if thresholds[n - 1] <= valuation {
        n - 1
    } else if n == 1 {
        0
    } else {
        lemma_tier_exists(valuation, thresholds, n - 1);
        choose|index: int|
            0 <= index < n - 1 && (if exists|i: int| 0 <= i < n - 1 && thresholds[i] <= valuation {
                thresholds[index] <= valuation && forall|j: int|
                    index < j < n - 1 ==> thresholds[j] > valuation
            } else {
                index == 0
            })
    };
    if thresholds[n - 1] > valuation && n > 1 {
        if exists|i: int| 0 <= i < n && thresholds[i] <= valuation {
            let w = choose|i: int| 0 <= i < n && thresholds[i] <= valuation;
            assert(0 <= w < n - 1 && thresholds[w] <= valuation);
        }
    }
    assert(0 <= found < n && (if exists|i: int| 0 <= i < n && thresholds[i] <= valuation {
        thresholds[found] <= valuation && forall|j: int|
            found < j < n ==> thresholds[j] > valuation
    } else {
        found == 0
    }));
    if n == thresholds.len() {
        if exists|i: int| reaches(valuation, thresholds, i) {
            let w = choose|i: int| reaches(valuation, thresholds, i);
            assert(0 <= w < n && thresholds[w] <= valuation);
            assert(reaches(valuation, thresholds, found));
            assert forall|j: int| found < j implies !reaches(valuation, thresholds, j) by {
                if j < n {
                    assert(thresholds[j] > valuation);
                }
            }
        } else {
            if exists|i: int| 0 <= i < n && thresholds[i] <= valuation {
                let w = choose|i: int| 0 <= i < n && thresholds[i] <= valuation;
                assert(reaches(valuation, thresholds, w));
            }
        }
        assert(is_tier_index(valuation, thresholds, found));
        lemma_tier_index_unique(valuation, thresholds, found, tier_of(valuation, thresholds));
    }
}

/// Tier lookup is monotonic: on any ladder with a rung, a valuation that
/// is no smaller is given a tier that is no lower.
pub proof fn lemma_tier_of_monotonic(low: u64, high: u64, thresholds: Seq<u64>)
    requires
        low <= high,
        thresholds.len() > 0,
    ensures
        tier_of(low, thresholds) <= tier_of(high, thresholds),
{
    lemma_tier_in_range(low, thresholds);
    lemma_tier_in_range(high, thresholds);
    lemma_tier_index_monotonic(
        low,
        high,
        thresholds,
        tier_of(low, thresholds),
        tier_of(high, thresholds),
    );
}

/// The cap on one block's buys never falls when the valuation rises.
pub proof fn lemma_velocity_cap_monotonic(low: u64, high: u64)
    requires
        low <= high,
    ensures
        velocity_cap_of(low) <= velocity_cap_of(high),
{
    let ladder = FIB_MCAP_THRESHOLDS_LAMPORTS@;
    lemma_tier_in_range(low, ladder);
    lemma_tier_in_range(high, ladder);
    let a = tier_of(low, ladder);
    let b = tier_of(high, ladder);
    lemma_tier_index_monotonic(low, high, ladder, a, b);
    assert(FIB_VELOCITY_SOL@[0] == 1);
    assert(FIB_VELOCITY_SOL@[1] == 3);
    assert(FIB_VELOCITY_SOL@[2] == 7);
    assert(FIB_VELOCITY_SOL@[3] == 15);
    assert(FIB_VELOCITY_SOL@[4] == 30);
    assert(FIB_VELOCITY_SOL@[5] == 70);
    assert(FIB_VELOCITY_SOL@[6] == 150);
    assert(FIB_VELOCITY_SOL@[7] == 300);
    assert(FIB_VELOCITY_SOL@[a] <= FIB_VELOCITY_SOL@[b]);
    assert(FIB_VELOCITY_SOL@[a] * LAMPORTS_PER_SOL <= FIB_VELOCITY_SOL@[b] * LAMPORTS_PER_SOL)
        by (nonlinear_arith)
        requires
            FIB_VELOCITY_SOL@[a] <= FIB_VELOCITY_SOL@[b],
            LAMPORTS_PER_SOL > 0,
    ;
}

/// The cap on one block's buys for an asset of the given valuation: the
/// velocity of its tier on the velocity ladder, in smallest units.
pub fn velocity_cap(valuation: u64) -> (cap: u64)
    ensures
        cap == velocity_cap_of(valuation),
        LAMPORTS_PER_SOL <= cap <= 300 * LAMPORTS_PER_SOL,
{
    let index = tier_index(valuation, &FIB_MCAP_THRESHOLDS_LAMPORTS);
    let per_block: u64 = FIB_VELOCITY_SOL[index];
    assert(1 <= per_block <= 300) by {
        assert(FIB_VELOCITY_SOL@[0] == 1);
        assert(FIB_VELOCITY_SOL@[1] == 3);
        assert(FIB_VELOCITY_SOL@[2] == 7);
        assert(FIB_VELOCITY_SOL@[3] == 15);
        assert(FIB_VELOCITY_SOL@[4] == 30);
        assert(FIB_VELOCITY_SOL@[5] == 70);
        assert(FIB_VELOCITY_SOL@[6] == 150);
        assert(FIB_VELOCITY_SOL@[7] == 300);
    }
    let cap = per_block * LAMPORTS_PER_SOL;
    assert(cap == velocity_cap_at(index as int));
    cap
}

} // verus!
