//! The template of a child asset: its configuration, its launch and its
//! valuation ladder.

use vstd::prelude::*;
use crate::address::{ata_bytes, get_ata, Address};
use crate::admission::{swap_cap, swap_cap_of};
use crate::contract::{is_mint_for, lacks_account, TokenMint};
use crate::coordinator::{is_tax_result, GlobalTaxSwap, SwapDelegate, TaxRequest, TaxResult};
use crate::error::{failure, SafePumpError};
use crate::orchestrator::{ExchangeOrder, ExchangeOutcome, UserSwapState};
use crate::tax::mul_div;
use crate::tier::{current_valuation, valuation_of, LAMPORTS_PER_SOL};

verus! {

/// The coordinator's share of every swap of a child asset, in basis points.
pub const GLOBAL_TAX: u64 = 100;

/// The valuations, in whole units of the base currency, from which the top
/// rate may apply.
pub const VALID_TOP_TIER_SOL: [u64; 5] = [1_000_000, 5_000_000, 10_000_000, 50_000_000, 100_000_000];

/// What is added to a rung's rate, in basis points.
pub const FIB_START_BPS: u64 = 1;

/// The rate of the top tier, in basis points.
pub const MAX_SWAP_BPS_AT_TOP_TIER: u64 = 100;

/// The rates of the rungs, in basis points.
pub const FIB_TIERS: [u64; 8] = [1, 2, 3, 5, 8, 13, 21, 34];

/// The thresholds of the rungs, in whole units of the base currency.
pub const FIB_MCAP_THRESHOLDS: [u64; 8] = [
    100_000, 500_000, 1_000_000, 5_000_000, 10_000_000, 25_000_000, 50_000_000, 75_000_000,
];

/// Least supply of a child asset.
pub const MIN_TOTAL_SUPPLY: u64 = 1_000_000_000_000_000;

/// Greatest supply of a child asset.
pub const MAX_TOTAL_SUPPLY: u64 = 1_000_000_000_000_000_000;

/// Least fee of a child asset, in basis points.
pub const MIN_SWAP_FEE: u64 = 100;

/// Greatest fee of a child asset, in basis points.
pub const MAX_SWAP_FEE: u64 = 1000;

/// Least rate that an asset may set as its cap on a buy, in basis points.
pub const MIN_MAX_TOKENS_BUY: u64 = 10;

/// Greatest rate that an asset may set as its cap on a buy, in basis points.
pub const MAX_MAX_TOKENS_BUY: u64 = 100;

/// Least rate that an asset may set as its cap on a sell, in basis points.
pub const MIN_MAX_HOLDINGS_SELL: u64 = 10;

/// Greatest rate that an asset may set as its cap on a sell, in basis
/// points.
pub const MAX_MAX_HOLDINGS_SELL: u64 = 100;

/// The sell cooldowns that an asset may choose, in seconds.
pub const VALID_SWAP_PERIODS: [i64; 6] = [900, 1800, 3600, 14400, 28800, 86400];

/// Most bytes in an asset's name.
pub const MAX_NAME_LEN: usize = 32;

/// Most bytes in an asset's ticker.
pub const MAX_TICKER_LEN: usize = 16;

/// Most bytes in an asset's description.
pub const MAX_DESCRIPTION_LEN: usize = 288;

/// Most of the supply that the deployer and friends may hold, in basis
/// points.
pub const MAX_ALLOCATION_PERCENT: u64 = 5100;

/// Least seed of the vault, in smallest units of the base currency.
pub const MIN_VAULT_SEED_SOL: u64 = 250_000_000;

/// Greatest seed of the vault, in smallest units of the base currency.
pub const MAX_VAULT_SEED_SOL: u64 = 10_000_000_000;

/// The base-currency reserve at which an asset bonds: 100 whole units.
pub const BOND_THRESHOLD_SOL: u64 = 100_000_000_000;

/// Claimers at which the airdrop starts.
pub const AIRDROP_TRIGGER_COUNT: u64 = 1000;

/// Seconds after creation before a child asset can be swapped.
pub const LAUNCH_COOLDOWN: i64 = 120;

/// The notice that a child asset presented itself to the coordinator.
#[derive(Clone, Copy, Debug)]
pub struct HandshakeEvent {
    pub program_id: Address,
    pub deployer_wallet: Address,
}

/// The reasons for which a child asset rejects a request.
#[derive(Clone, Copy, Debug, PartialEq, Eq, Structural)]
pub enum MemeTemplateError {
    InvalidSupply,
    AntiSniperCooldown,
    NotLive,
    InvalidArgument,
    InvalidSwapPeriod,
    InvalidFriendsAllocation,
    InvalidBurnPercentage,
    InvalidLpPercentage,
    SellLockActive,
    InvalidVaultSeedSol,
    BondFailed,
    ExceedsFibBuy,
    ExceedsFibSell,
    AirdropAlreadyEnabled,
    InvalidTopTierMcap,
    AirdropNotTriggered,
    CpiRateLimit,
    /// A sum, product or difference left the range of its type.
    Overflow,
}

impl MemeTemplateError {
    /// The text that describes the error.
    pub open spec fn message_spec(&self) -> Seq<char> {
        match self {
            MemeTemplateError::InvalidSupply => "Invalid supply"@,
            MemeTemplateError::AntiSniperCooldown => "Anti-sniper cooldown"@,
            MemeTemplateError::NotLive => "Contract not live"@,
            MemeTemplateError::InvalidArgument => "Invalid argument"@,
            MemeTemplateError::InvalidSwapPeriod => "Invalid swap period"@,
            MemeTemplateError::InvalidFriendsAllocation => "Invalid friends allocation"@,
            MemeTemplateError::InvalidBurnPercentage => "Invalid burn percentage"@,
            MemeTemplateError::InvalidLpPercentage => "Invalid LP percentage"@,
            MemeTemplateError::SellLockActive => "Sell lock active"@,
            MemeTemplateError::InvalidVaultSeedSol => "Invalid vault seed SOL"@,
            MemeTemplateError::BondFailed => "Bond failed"@,
            MemeTemplateError::ExceedsFibBuy => "Exceeds Fib-tier buy cap"@,
            MemeTemplateError::ExceedsFibSell => "Exceeds Fib-tier sell cap"@,
            MemeTemplateError::AirdropAlreadyEnabled => "Airdrop already enabled"@,
            MemeTemplateError::InvalidTopTierMcap => "Invalid top-tier MCAP"@,
            MemeTemplateError::AirdropNotTriggered => "Airdrop not triggered"@,
            MemeTemplateError::CpiRateLimit => "CPI rate limit exceeded"@,
            MemeTemplateError::Overflow => "Math error"@,
        }
    }

    /// The text that describes the error.
    pub fn message(&self) -> (text: &'static str)
        ensures
            text@ == self.message_spec(),
    {
        match self {
            MemeTemplateError::InvalidSupply => "Invalid supply",
            MemeTemplateError::AntiSniperCooldown => "Anti-sniper cooldown",
            MemeTemplateError::NotLive => "Contract not live",
            MemeTemplateError::InvalidArgument => "Invalid argument",
            MemeTemplateError::InvalidSwapPeriod => "Invalid swap period",
            MemeTemplateError::InvalidFriendsAllocation => "Invalid friends allocation",
            MemeTemplateError::InvalidBurnPercentage => "Invalid burn percentage",
            MemeTemplateError::InvalidLpPercentage => "Invalid LP percentage",
            MemeTemplateError::SellLockActive => "Sell lock active",
            MemeTemplateError::InvalidVaultSeedSol => "Invalid vault seed SOL",
            MemeTemplateError::BondFailed => "Bond failed",
            MemeTemplateError::ExceedsFibBuy => "Exceeds Fib-tier buy cap",
            MemeTemplateError::ExceedsFibSell => "Exceeds Fib-tier sell cap",
            MemeTemplateError::AirdropAlreadyEnabled => "Airdrop already enabled",
            MemeTemplateError::InvalidTopTierMcap => "Invalid top-tier MCAP",
            MemeTemplateError::AirdropNotTriggered => "Airdrop not triggered",
            MemeTemplateError::CpiRateLimit => "CPI rate limit exceeded",
            MemeTemplateError::Overflow => "Math error",
        }
    }
}

/// The economic state of a child asset.
#[derive(Debug)]
pub struct MemeToken {
    pub total_supply: u64,
    pub name: String,
    pub symbol: String,
    pub description: String,
    pub swap_fee_bps: u64,
    pub max_buy_bps: u64,
    pub max_sell_bps: u64,
    pub sell_cooldown: i64,
    pub burn_lp_percent: u8,
    pub friends: [Address; 4],
    pub friend_amounts: [u64; 4],
    pub deployer_amount: u64,
    pub treasurer: Address,
    pub vault_sol: u64,
    pub vault_tokens: u64,
    pub burned: u64,
    pub created_at: i64,
    pub live: bool,
    pub bonded: bool,
    pub lp_addr: Option<Address>,
    pub lp_percent: u8,
    pub seed_sol: u64,
    pub swap_count: u64,
    pub airdrop_enabled: bool,
    pub airdrop_count: u64,
    pub top_tier_mcap_sol: u64,
    pub airdrop_triggered: bool,
}

/// Whether rung `i` of the rate ladder is reached at a valuation given in
/// smallest units.
pub open spec fn rung_reached(mcap_lamports: u64, i: int) -> bool {
    0 <= i < 8 && mcap_lamports >= FIB_MCAP_THRESHOLDS@[i] * LAMPORTS_PER_SOL
}

/// Whether `index` is the rung that the rate ladder selects: the highest
/// rung whose threshold the valuation reaches, or rung 0 where it reaches
/// none.
pub open spec fn is_fib_rung(mcap_lamports: u64, index: int) -> bool {
    if exists|i: int| rung_reached(mcap_lamports, i) {
        &&& rung_reached(mcap_lamports, index)
        &&& forall|j: int| index < j ==> !rung_reached(mcap_lamports, j)
    } else {
        index == 0
    }
}

/// The rung that the rate ladder selects.
pub open spec fn fib_rung_of(mcap_lamports: u64) -> int {
    choose|index: int| is_fib_rung(mcap_lamports, index)
}

/// The rate, in basis points, that caps one swap at a valuation: the top
/// rate from the asset's top-tier valuation on; below it, the rate of the
/// selected rung plus the starting rate.
pub open spec fn fib_tier_of(mcap_lamports: u64, top_tier_mcap_sol: u64) -> int {
    if mcap_lamports >= top_tier_mcap_sol * LAMPORTS_PER_SOL {
        MAX_SWAP_BPS_AT_TOP_TIER as int
    } else {
        FIB_START_BPS + FIB_TIERS@[fib_rung_of(mcap_lamports)]
    }
}

/// A valuation selects one rung.
pub proof fn lemma_fib_rung_unique(mcap_lamports: u64, a: int, b: int)
    requires
        is_fib_rung(mcap_lamports, a),
        is_fib_rung(mcap_lamports, b),
    ensures
        a == b,
{
    if exists|i: int| rung_reached(mcap_lamports, i) {
        if a < b {
            assert(!rung_reached(mcap_lamports, b));
        }
        if b < a {
            assert(!rung_reached(mcap_lamports, a));
        }
    }
}

/// Every valuation selects a rung of the ladder.
pub proof fn lemma_fib_rung_in_range(mcap_lamports: u64)
    ensures
        0 <= fib_rung_of(mcap_lamports) < 8,
        is_fib_rung(mcap_lamports, fib_rung_of(mcap_lamports)),
{
    let m = mcap_lamports;
    let found: int = if rung_reached(m, 7) {
        7
    } else if rung_reached(m, 6) {
        6
    } else if rung_reached(m, 5) {
        5
    } else if rung_reached(m, 4) {
        4
    } else if rung_reached(m, 3) {
        3
    } else if rung_reached(m, 2) {
        2
    } else if rung_reached(m, 1) {
        1
    } else {
        0
    };
    if exists|i: int| rung_reached(m, i) {
        let w = choose|i: int| rung_reached(m, i);
        assert(0 <= w < 8);
        assert(rung_reached(m, found));
    }
    assert(is_fib_rung(m, found));
    lemma_fib_rung_unique(m, found, fib_rung_of(m));
}

/// The rate never falls when the valuation rises: under one top tier, a
/// valuation that is no smaller is given a rate that is no lower.
pub proof fn lemma_fib_tier_monotonic(low: u64, high: u64, top_tier_mcap_sol: u64)
    requires
        low <= high,
    ensures
        fib_tier_of(low, top_tier_mcap_sol) <= fib_tier_of(high, top_tier_mcap_sol),
        2 <= fib_tier_of(low, top_tier_mcap_sol) <= 100,
{
    lemma_fib_rung_in_range(low);
    lemma_fib_rung_in_range(high);
    let a = fib_rung_of(low);
    let b = fib_rung_of(high);
    if exists|i: int| rung_reached(low, i) {
        assert(rung_reached(low, a));
        assert(rung_reached(high, a));
        if b < a {
            assert(!rung_reached(high, a));
        }
    } else {
        assert(a == 0);
    }
    assert(a <= b);
    assert(FIB_TIERS@[0] == 1);
    assert(FIB_TIERS@[1] == 2);
    assert(FIB_TIERS@[2] == 3);
    assert(FIB_TIERS@[3] == 5);
    assert(FIB_TIERS@[4] == 8);
    assert(FIB_TIERS@[5] == 13);
    assert(FIB_TIERS@[6] == 21);
    assert(FIB_TIERS@[7] == 34);
    assert(FIB_TIERS@[a] <= FIB_TIERS@[b]);
}

fn find_fib_rung(mcap_lamports: u64) -> (index: usize)
    ensures
        index < 8,
        is_fib_rung(mcap_lamports, index as int),
{
    let mut i: usize = 8;
    while i > 0
        invariant
            0 <= i <= 8,
            forall|j: int| i <= j ==> !rung_reached(mcap_lamports, j),
        decreases i,
    {
        i -= 1;
        let threshold: u64 = FIB_MCAP_THRESHOLDS[i];
        assert(threshold <= 75_000_000) by {
            assert(FIB_MCAP_THRESHOLDS@[0] == 100_000);
            assert(FIB_MCAP_THRESHOLDS@[1] == 500_000);
            assert(FIB_MCAP_THRESHOLDS@[2] == 1_000_000);
            assert(FIB_MCAP_THRESHOLDS@[3] == 5_000_000);
            assert(FIB_MCAP_THRESHOLDS@[4] == 10_000_000);
            assert(FIB_MCAP_THRESHOLDS@[5] == 25_000_000);
            assert(FIB_MCAP_THRESHOLDS@[6] == 50_000_000);
            assert(FIB_MCAP_THRESHOLDS@[7] == 75_000_000);
        }
        if mcap_lamports >= threshold * LAMPORTS_PER_SOL {
            assert(rung_reached(mcap_lamports, i as int));
            return i;
        }
    }
    0
}

/// The rate, in basis points, that caps one swap of an asset valued at
/// `mcap_lamports` whose top tier starts at `top_tier_mcap_sol` whole units.
pub fn get_fib_tier(mcap_lamports: u64, top_tier_mcap_sol: u64) -> (bps: u64)
    ensures
        bps == fib_tier_of(mcap_lamports, top_tier_mcap_sol),
        2 <= bps <= 100,
{
    let index = find_fib_rung(mcap_lamports);
    proof {
        lemma_fib_rung_unique(mcap_lamports, index as int, fib_rung_of(mcap_lamports));
    }
    let rate: u64 = FIB_TIERS[index];
    assert(1 <= rate <= 34) by {
        assert(FIB_TIERS@[0] == 1);
        assert(FIB_TIERS@[1] == 2);
        assert(FIB_TIERS@[2] == 3);
        assert(FIB_TIERS@[3] == 5);
        assert(FIB_TIERS@[4] == 8);
        assert(FIB_TIERS@[5] == 13);
        assert(FIB_TIERS@[6] == 21);
        assert(FIB_TIERS@[7] == 34);
    }
    let top: u128 = mul_div(top_tier_mcap_sol, LAMPORTS_PER_SOL, 1);
    if mcap_lamports as u128 >= top {
        MAX_SWAP_BPS_AT_TOP_TIER
    } else {
        FIB_START_BPS + rate
    }
}

/// What a deployer asks for at the creation of a child asset.
#[derive(Debug)]
pub struct MemeConfig {
    pub total_supply: u64,
    pub name: String,
    pub symbol: String,
    pub description: String,
    pub swap_fee_bps: u64,
    pub max_buy_bps: u64,
    pub max_sell_bps: u64,
    pub sell_cooldown: i64,
    pub burn_lp_percent: u8,
    pub friends: [Address; 4],
    pub friend_amounts: [u64; 4],
    pub deployer_amount: u64,
    pub treasurer: Address,
    pub lp_percent: u8,
    pub seed_sol: u64,
    pub top_tier_mcap_sol: u64,
}

/// The records that the creation of a child asset reads and writes.
#[derive(Debug)]
pub struct InitializeMeme {
    pub meme_token: MemeToken,
    pub deployer: Address,
    /// The address of the child program.
    pub program_id: Address,
    /// The number of claimers in the airdrop registry.
    pub airdrop_claimers: u64,
}

/// The number of bytes of a text in UTF-8.
pub open spec fn byte_length(text: Seq<char>) -> nat {
    vstd::utf8::encode_utf8(text).len()
}

/// Whether a sell cooldown is one of those offered.
pub open spec fn valid_swap_period(seconds: i64) -> bool {
    exists|i: int| 0 <= i < 6 && VALID_SWAP_PERIODS@[i] == seconds
}

/// Whether a top-tier valuation is one of those offered.
pub open spec fn valid_top_tier(sol: u64) -> bool {
    exists|i: int| 0 <= i < 5 && VALID_TOP_TIER_SOL@[i] == sol
}

/// What the deployer and the friends are to hold together.
pub open spec fn total_allocation(deployer_amount: u64, friend_amounts: Seq<u64>) -> int {
    deployer_amount + friend_amounts[0] + friend_amounts[1] + friend_amounts[2] + friend_amounts[3]
}

/// The deployer's and friends' part of the supply, in basis points, rounded
/// down.
pub open spec fn allocation_bps(config: MemeConfig) -> int {
    (total_allocation(config.deployer_amount, config.friend_amounts@) * 10_000) / (
    config.total_supply as int)
}

/// Why a configuration is refused, if it is, in the order in which it is
/// examined.
pub open spec fn config_failure(config: MemeConfig, use_airdrop: bool, airdrop_claimers: u64) -> Option<
    MemeTemplateError,
> {
    if !(MIN_TOTAL_SUPPLY <= config.total_supply <= MAX_TOTAL_SUPPLY) {
        Some(MemeTemplateError::InvalidSupply)
    } else if !(byte_length(config.name@) <= MAX_NAME_LEN && byte_length(config.symbol@)
        <= MAX_TICKER_LEN && byte_length(config.description@) <= MAX_DESCRIPTION_LEN) {
        Some(MemeTemplateError::InvalidArgument)
    } else if !(MIN_SWAP_FEE <= config.swap_fee_bps <= MAX_SWAP_FEE) {
        Some(MemeTemplateError::InvalidArgument)
    } else if !(MIN_MAX_TOKENS_BUY <= config.max_buy_bps <= MAX_MAX_TOKENS_BUY) {
        Some(MemeTemplateError::InvalidArgument)
    } else if !(MIN_MAX_HOLDINGS_SELL <= config.max_sell_bps <= MAX_MAX_HOLDINGS_SELL) {
        Some(MemeTemplateError::InvalidArgument)
    } else if !valid_swap_period(config.sell_cooldown) {
        Some(MemeTemplateError::InvalidSwapPeriod)
    } else if config.burn_lp_percent > 50 {
        Some(MemeTemplateError::InvalidBurnPercentage)
    } else if config.lp_percent > 100 {
        Some(MemeTemplateError::InvalidLpPercentage)
    } else if !(MIN_VAULT_SEED_SOL <= config.seed_sol <= MAX_VAULT_SEED_SOL) {
        Some(MemeTemplateError::InvalidVaultSeedSol)
    } else if !valid_top_tier(config.top_tier_mcap_sol) {
        Some(MemeTemplateError::InvalidTopTierMcap)
    } else if allocation_bps(config) > MAX_ALLOCATION_PERCENT {
        Some(MemeTemplateError::InvalidFriendsAllocation)
    } else if config.lp_percent != 100 - allocation_bps(config) / 100 {
        Some(MemeTemplateError::InvalidLpPercentage)
    } else if use_airdrop && airdrop_claimers == 0 {
        Some(MemeTemplateError::InvalidArgument)
    } else {
        None
    }
}

/// The asset that an accepted configuration creates at time `now`: not yet
/// live, not bonded, with empty vaults.
pub open spec fn created_meme(
    config: MemeConfig,
    use_airdrop: bool,
    airdrop_claimers: u64,
    now: i64,
) -> MemeToken {
    MemeToken {
        total_supply: config.total_supply,
        name: config.name,
        symbol: config.symbol,
        description: config.description,
        swap_fee_bps: config.swap_fee_bps,
        max_buy_bps: config.max_buy_bps,
        max_sell_bps: config.max_sell_bps,
        sell_cooldown: config.sell_cooldown,
        burn_lp_percent: config.burn_lp_percent,
        friends: config.friends,
        friend_amounts: config.friend_amounts,
        deployer_amount: config.deployer_amount,
        treasurer: config.treasurer,
        vault_sol: 0,
        vault_tokens: 0,
        burned: 0,
        created_at: now,
        live: false,
        bonded: false,
        lp_addr: None,
        lp_percent: config.lp_percent,
        seed_sol: config.seed_sol,
        swap_count: 0,
        airdrop_enabled: use_airdrop,
        airdrop_count: if use_airdrop {
            airdrop_claimers
        } else {
            0
        },
        top_tier_mcap_sol: config.top_tier_mcap_sol,
        airdrop_triggered: false,
    }
}

/// Tells whether a sell cooldown is one of those offered.
pub fn is_valid_swap_period(seconds: i64) -> (r: bool)
    ensures
        r == valid_swap_period(seconds),
{
    let mut i: usize = 0;
    while i < 6
        invariant
            0 <= i <= 6,
            forall|j: int| 0 <= j < i ==> VALID_SWAP_PERIODS@[j] != seconds,
        decreases 6 - i,
    {
        if VALID_SWAP_PERIODS[i] == seconds {
            return true;
        }
        i += 1;
    }
    false
}

/// Tells whether a top-tier valuation is one of those offered.
pub fn is_valid_top_tier(sol: u64) -> (r: bool)
    ensures
        r == valid_top_tier(sol),
{
    let mut i: usize = 0;
    while i < 5
        invariant
            0 <= i <= 5,
            forall|j: int| 0 <= j < i ==> VALID_TOP_TIER_SOL@[j] != sol,
        decreases 5 - i,
    {
        if VALID_TOP_TIER_SOL[i] == sol {
            return true;
        }
        i += 1;
    }
    false
}

/// The deployer's and friends' part of a supply, in basis points, rounded
/// down.
fn allocation_share(deployer_amount: u64, friend_amounts: &[u64; 4], total_supply: u64) -> (bps:
    u128)
    requires
        total_supply > 0,
    ensures
        bps == (total_allocation(deployer_amount, friend_amounts@) * 10_000) / (
        total_supply as int),
{
    let total: u128 = (deployer_amount as u128) + (friend_amounts[0] as u128) + (
    friend_amounts[1] as u128) + (friend_amounts[2] as u128) + (friend_amounts[3] as u128);
    (total * 10_000) / (total_supply as u128)
}

/// Creates a child asset from a configuration. The configuration is
/// examined in the order of `config_failure`; if it is accepted the asset's
/// record is written, with the airdrop enabled for the registry's claimers
/// where it was asked for, and the notice for the coordinator is handed
/// back. A refused configuration changes nothing.
pub fn initialize_meme(ctx: &mut InitializeMeme, config: MemeConfig, use_airdrop: bool, now: i64) -> (r:
    Result<HandshakeEvent, MemeTemplateError>)
    ensures
        failure(r) == config_failure(config, use_airdrop, old(ctx).airdrop_claimers),
        r is Err ==> *final(ctx) == *old(ctx),
        r matches Ok(event) ==> {
            &&& final(ctx).meme_token == created_meme(
                config,
                use_airdrop,
                old(ctx).airdrop_claimers,
                now,
            )
            &&& final(ctx).deployer == old(ctx).deployer
            &&& final(ctx).program_id == old(ctx).program_id
            &&& final(ctx).airdrop_claimers == old(ctx).airdrop_claimers
            &&& event == (HandshakeEvent {
                program_id: old(ctx).program_id,
                deployer_wallet: old(ctx).deployer,
            })
        },
{
    if config.total_supply < MIN_TOTAL_SUPPLY || config.total_supply > MAX_TOTAL_SUPPLY {
        return Err(MemeTemplateError::InvalidSupply);
    }
    if config.name.as_str().as_bytes().len() > MAX_NAME_LEN
        || config.symbol.as_str().as_bytes().len() > MAX_TICKER_LEN
        || config.description.as_str().as_bytes().len() > MAX_DESCRIPTION_LEN {
        return Err(MemeTemplateError::InvalidArgument);
    }
    if config.swap_fee_bps < MIN_SWAP_FEE || config.swap_fee_bps > MAX_SWAP_FEE {
        return Err(MemeTemplateError::InvalidArgument);
    }
    if config.max_buy_bps < MIN_MAX_TOKENS_BUY || config.max_buy_bps > MAX_MAX_TOKENS_BUY {
        return Err(MemeTemplateError::InvalidArgument);
    }
    if config.max_sell_bps < MIN_MAX_HOLDINGS_SELL || config.max_sell_bps > MAX_MAX_HOLDINGS_SELL {
        return Err(MemeTemplateError::InvalidArgument);
    }
    if !is_valid_swap_period(config.sell_cooldown) {
        return Err(MemeTemplateError::InvalidSwapPeriod);
    }
    if config.burn_lp_percent > 50 {
        return Err(MemeTemplateError::InvalidBurnPercentage);
    }
    if config.lp_percent > 100 {
        return Err(MemeTemplateError::InvalidLpPercentage);
    }
    if config.seed_sol < MIN_VAULT_SEED_SOL || config.seed_sol > MAX_VAULT_SEED_SOL {
        return Err(MemeTemplateError::InvalidVaultSeedSol);
    }
    if !is_valid_top_tier(config.top_tier_mcap_sol) {
        return Err(MemeTemplateError::InvalidTopTierMcap);
    }
    let alloc_pct: u128 = allocation_share(
        config.deployer_amount,
        &config.friend_amounts,
        config.total_supply,
    );
    if alloc_pct > MAX_ALLOCATION_PERCENT as u128 {
        return Err(MemeTemplateError::InvalidFriendsAllocation);
    }
    if config.lp_percent as u128 != 100 - alloc_pct / 100 {
        return Err(MemeTemplateError::InvalidLpPercentage);
    }
    if use_airdrop && ctx.airdrop_claimers == 0 {
        return Err(MemeTemplateError::InvalidArgument);
    }
    let airdrop_count: u64 = if use_airdrop {
        ctx.airdrop_claimers
    } else {
        0
    };
    ctx.meme_token = MemeToken {
        total_supply: config.total_supply,
        name: config.name,
        symbol: config.symbol,
        description: config.description,
        swap_fee_bps: config.swap_fee_bps,
        max_buy_bps: config.max_buy_bps,
        max_sell_bps: config.max_sell_bps,
        sell_cooldown: config.sell_cooldown,
        burn_lp_percent: config.burn_lp_percent,
        friends: config.friends,
        friend_amounts: config.friend_amounts,
        deployer_amount: config.deployer_amount,
        treasurer: config.treasurer,
        vault_sol: 0,
        vault_tokens: 0,
        burned: 0,
        created_at: now,
        live: false,
        bonded: false,
        lp_addr: None,
        lp_percent: config.lp_percent,
        seed_sol: config.seed_sol,
        swap_count: 0,
        airdrop_enabled: use_airdrop,
        airdrop_count,
        top_tier_mcap_sol: config.top_tier_mcap_sol,
        airdrop_triggered: false,
    };
    Ok(HandshakeEvent { program_id: ctx.program_id, deployer_wallet: ctx.deployer })
}

/// The records that the launch of a child asset reads and writes.
#[derive(Debug)]
pub struct MintToVault {
    pub meme_token: MemeToken,
    pub mint: Address,
    pub deployer: Address,
}

/// What the launch of a child asset asks the ledger to do.
#[derive(Debug)]
pub struct VaultMintPlan {
    /// Tokens to mint into the vault.
    pub lp_tokens: u64,
    /// Tokens to mint to the deployer and to each friend, in this order.
    pub allocations: Vec<TokenMint>,
    /// Tokens to burn from the vault; none where it is zero.
    pub burn: u64,
    /// Base currency to move from the deployer into the vault.
    pub seed_sol: u64,
}

/// The tokens that go to the liquidity vault: the pool's percentage of the
/// supply, rounded down.
pub open spec fn lp_tokens_of(meme: MemeToken) -> int {
    (meme.total_supply as int * meme.lp_percent as int) / 100
}

/// The part of the vault's tokens that is burned at launch, rounded down.
pub open spec fn lp_burn_of(meme: MemeToken) -> int {
    (lp_tokens_of(meme) * meme.burn_lp_percent as int) / 100
}

/// The deployer and the first `n` friends that have an address, each with
/// the amount to mint.
pub open spec fn recipients_upto(meme: MemeToken, deployer: Address, n: int) -> Seq<(Address, u64)>
    decreases n,
{
    if n <= 0 {
        seq![(deployer, meme.deployer_amount)]
    } else {
        let rest = recipients_upto(meme, deployer, n - 1);
        if meme.friends@[n - 1].is_zero() {
            rest
        } else {
            rest.push((meme.friends@[n - 1], meme.friend_amounts@[n - 1]))
        }
    }
}

/// Those who receive tokens at launch: the deployer, then every friend
/// whose address is not the zero address.
pub open spec fn recipients(meme: MemeToken, deployer: Address) -> Seq<(Address, u64)> {
    recipients_upto(meme, deployer, 4)
}

/// Why a launch fails, if it does: the vault's tokens do not fit, or what
/// is burned exceeds them; or a recipient has no token account.
pub open spec fn vault_mint_failure(ctx: MintToVault) -> Option<MemeTemplateError> {
    if lp_tokens_of(ctx.meme_token) > u64::MAX || ctx.meme_token.burned + lp_burn_of(
        ctx.meme_token,
    ) > lp_tokens_of(ctx.meme_token) {
        Some(MemeTemplateError::Overflow)
    } else if lacks_account(recipients(ctx.meme_token, ctx.deployer), ctx.mint) {
        Some(MemeTemplateError::InvalidArgument)
    } else {
        None
    }
}

/// The asset after its launch: what was burned is added to the burn total,
/// the vault holds the seed and the pool's tokens less all that was burned,
/// and the asset is live.
pub open spec fn launched_meme(meme: MemeToken) -> MemeToken {
    MemeToken {
        burned: (meme.burned + lp_burn_of(meme)) as u64,
        vault_sol: meme.seed_sol,
        vault_tokens: (lp_tokens_of(meme) - (meme.burned + lp_burn_of(meme))) as u64,
        live: true,
        ..meme
    }
}

/// The launch list of the first friends is the beginning of the list of
/// more friends.
pub proof fn lemma_recipients_grow(meme: MemeToken, deployer: Address, n: int, m: int)
    requires
        0 <= n <= m,
    ensures
        recipients_upto(meme, deployer, n).len() <= recipients_upto(meme, deployer, m).len(),
        forall|i: int|
            0 <= i < recipients_upto(meme, deployer, n).len() ==> recipients_upto(
                meme,
                deployer,
                n,
            )[i] == recipients_upto(meme, deployer, m)[i],
    decreases m - n,
{
    if n < m {
        lemma_recipients_grow(meme, deployer, n, m - 1);
    }
}

/// Launches a child asset: says what to mint into the vault, to the
/// deployer and to each friend with an address, what to burn from the vault
/// and what seed to move in, and brings the asset's record up to date. A
/// launch that fails changes nothing.
pub fn mint_to_vault(ctx: &mut MintToVault) -> (r: Result<VaultMintPlan, MemeTemplateError>)
    ensures
        failure(r) == vault_mint_failure(*old(ctx)),
        r is Err ==> *final(ctx) == *old(ctx),
        r matches Ok(plan) ==> {
            &&& final(ctx).meme_token == launched_meme(old(ctx).meme_token)
            &&& final(ctx).mint == old(ctx).mint
            &&& final(ctx).deployer == old(ctx).deployer
            &&& plan.lp_tokens == lp_tokens_of(old(ctx).meme_token)
            &&& plan.burn == lp_burn_of(old(ctx).meme_token)
            &&& plan.seed_sol == old(ctx).meme_token.seed_sol
            &&& plan.allocations@.len() == recipients(old(ctx).meme_token, old(ctx).deployer).len()
            &&& forall|i: int|
                0 <= i < plan.allocations@.len() ==> is_mint_for(
                    #[trigger] plan.allocations@[i],
                    recipients(old(ctx).meme_token, old(ctx).deployer)[i],
                    old(ctx).mint,
                )
        },
{
    let lp_wide: u128 = mul_div(ctx.meme_token.total_supply, ctx.meme_token.lp_percent as u64, 100);
    if lp_wide > u64::MAX as u128 {
        return Err(MemeTemplateError::Overflow);
    }
    let lp_tokens: u64 = lp_wide as u64;
    let burn_wide: u128 = mul_div(lp_tokens, ctx.meme_token.burn_lp_percent as u64, 100);
    if burn_wide > lp_tokens as u128 || (ctx.meme_token.burned as u128) + burn_wide
        > lp_tokens as u128 {
        return Err(MemeTemplateError::Overflow);
    }
    let burn: u64 = burn_wide as u64;
    let ghost meme = ctx.meme_token;
    let ghost deployer = ctx.deployer;
    let ghost mint = ctx.mint;
    let mut allocations: Vec<TokenMint> = Vec::new();
    match get_ata(&ctx.deployer, &ctx.mint) {
        Some(token_account) => {
            allocations.push(
                TokenMint {
                    owner: ctx.deployer,
                    token_account,
                    amount: ctx.meme_token.deployer_amount,
                },
            );
        },
        None => {
            proof {
                lemma_recipients_grow(meme, deployer, 0, 4);
                assert(ata_bytes(recipients(meme, deployer)[0].0, mint) is None);
            }
            return Err(MemeTemplateError::InvalidArgument);
        },
    }
    let mut i: usize = 0;
    while i < 4
        invariant
            0 <= i <= 4,
            *ctx == *old(ctx),
            meme == ctx.meme_token,
            deployer == ctx.deployer,
            mint == ctx.mint,
            lp_tokens == lp_tokens_of(meme),
            burn == lp_burn_of(meme),
            meme.burned + burn <= lp_tokens,
            allocations@.len() == recipients_upto(meme, deployer, i as int).len(),
            !lacks_account(recipients_upto(meme, deployer, i as int), mint),
            forall|k: int|
                0 <= k < allocations@.len() ==> is_mint_for(
                    #[trigger] allocations@[k],
                    recipients_upto(meme, deployer, i as int)[k],
                    mint,
                ),
        decreases 4 - i,
    {
        let friend: Address = ctx.meme_token.friends[i];
        let ghost before = recipients_upto(meme, deployer, i as int);
        let ghost after = recipients_upto(meme, deployer, i + 1);
        if !friend.is_zero_address() {
            match get_ata(&friend, &ctx.mint) {
                Some(token_account) => {
                    allocations.push(
                        TokenMint {
                            owner: friend,
                            token_account,
                            amount: ctx.meme_token.friend_amounts[i],
                        },
                    );
                },
                None => {
                    proof {
                        lemma_recipients_grow(meme, deployer, i + 1, 4);
                        let last = after.len() - 1;
                        assert(after[last].0 == friend);
                        assert(ata_bytes(recipients(meme, deployer)[last].0, mint) is None);
                    }
                    return Err(MemeTemplateError::InvalidArgument);
                },
            }
        }
        proof {
            assert forall|k: int| 0 <= k < after.len() implies !(ata_bytes(
                #[trigger] after[k].0,
                mint,
            ) is None) by {
                if k < before.len() {
                    assert(after[k] == before[k]);
                    assert(!(ata_bytes(before[k].0, mint) is None));
                }
            }
        }
        i += 1;
    }
    ctx.meme_token.burned = ctx.meme_token.burned + burn;
    ctx.meme_token.vault_sol = ctx.meme_token.seed_sol;
    ctx.meme_token.vault_tokens = lp_tokens - ctx.meme_token.burned;
    ctx.meme_token.live = true;
    Ok(VaultMintPlan { lp_tokens, allocations, burn, seed_sol: ctx.meme_token.seed_sol })
}

/// The records that one swap of a child asset reads and writes. The
/// coordinator is reached through `D`.
#[derive(Debug)]
pub struct Swap<D = GlobalTaxSwap> {
    pub meme_token: MemeToken,
    pub user_state: UserSwapState,
    /// What the user holds of the asset.
    pub user_token_amount: u64,
    /// The number of claimers in the airdrop registry.
    pub airdrop_claimers: u64,
    /// The address of the liquidity pool's state.
    pub pool_state: Address,
    /// The mint of the wrapped base currency.
    pub sol_mint: Address,
    /// The coordinator's records for the requester.
    pub mothership: D,
}

/// Why a swap of a child asset fails.
#[derive(Clone, Copy, Debug, PartialEq, Eq, Structural)]
pub enum SwapFailure {
    /// The child asset's own rules turned the request down.
    Template(MemeTemplateError),
    /// The coordinator's tax routine turned the request down.
    Coordinator(SafePumpError),
    /// The exchange leg turned the order down.
    ExchangeRejected,
}

/// The leg that carries a swap out.
#[derive(Clone, Copy, Debug)]
pub enum ExchangeLeg {
    /// A bonded asset: the order goes to the liquidity pool.
    Amm { order: ExchangeOrder },
    /// A buy before bonding: `paid` moves into the vault and `tokens_out`
    /// are minted to the buyer.
    CurveBuy { paid: u64, tokens_out: u64 },
    /// A sell before bonding: `tokens_in` are burned and `base_out` is
    /// returned from the vault.
    CurveSell { tokens_in: u64, base_out: u64 },
}

/// What a swap of a child asset comes to, before the exchange leg has
/// answered.
#[derive(Clone, Copy, Debug)]
pub struct SwapPlan {
    /// The coordinator's share, paid into its vault.
    pub global_tax: u64,
    /// The asset's own fee, paid to the treasurer.
    pub local_tax: u64,
    /// What is left for the exchange leg.
    pub lp_amount: u64,
    /// The treasurer's token account for the base currency; only where the
    /// fee is not zero.
    pub treasury_account: Option<Address>,
    pub leg: ExchangeLeg,
    /// The vault's base reserve after the swap.
    pub vault_sol: u64,
    /// The vault's token reserve after the swap.
    pub vault_tokens: u64,
    /// Whether the swap makes the asset bond: a liquidity pool is to be
    /// created from the reserves.
    pub create_pool: bool,
    /// Whether the swap starts the airdrop.
    pub trigger_airdrop: bool,
}

/// What a committed swap of a child asset leaves behind for the caller.
#[derive(Debug)]
pub struct SwapOutcome {
    pub plan: SwapPlan,
    /// The coordinator's answer.
    pub tax: TaxResult,
    /// What the liquidity pool gave, for a bonded asset.
    pub received: Option<u64>,
}

/// The coordinator's share of a swap of a child asset.
pub open spec fn child_global_tax(amount: u64) -> int {
    (amount as int * GLOBAL_TAX as int) / 10_000
}

/// The asset's own fee on a swap.
pub open spec fn child_local_tax(amount: u64, swap_fee_bps: u64) -> int {
    (amount as int * swap_fee_bps as int) / 10_000
}

/// What a swap leaves for the exchange leg.
pub open spec fn lp_amount_of(amount: u64, swap_fee_bps: u64) -> int {
    amount - child_global_tax(amount) - child_local_tax(amount, swap_fee_bps)
}

/// The rate that caps one swap of the asset at its present valuation.
pub open spec fn asset_tier_bps(meme: MemeToken) -> u64 {
    fib_tier_of(
        valuation_of(meme.vault_sol, meme.total_supply, meme.vault_tokens) as u64,
        meme.top_tier_mcap_sol,
    ) as u64
}

/// Which of the asset's own gates turns the request down, if any, in the
/// order in which they are passed: the asset is live; the launch cooldown;
/// for a sell, the asset's sell cooldown; the per-swap cap, a part of the
/// supply for a buy and of the seller's holdings for a sell; the taxes leave
/// a remainder.
pub open spec fn template_gate_failure<D: SwapDelegate>(
    ctx: Swap<D>,
    request: TaxRequest,
    now: i64,
) -> Option<
    MemeTemplateError,
> {
    let meme = ctx.meme_token;
    if !meme.live {
        Some(MemeTemplateError::NotLive)
    } else if now - meme.created_at < LAUNCH_COOLDOWN {
        Some(MemeTemplateError::AntiSniperCooldown)
    } else if !request.is_buy && now - ctx.user_state.last_swap_timestamp < meme.sell_cooldown {
        Some(MemeTemplateError::InvalidArgument)
    } else if request.is_buy && request.amount_in > swap_cap_of(
        meme.total_supply,
        asset_tier_bps(meme),
        meme.max_buy_bps,
    ) {
        Some(MemeTemplateError::ExceedsFibBuy)
    } else if !request.is_buy && request.amount_in > swap_cap_of(
        ctx.user_token_amount,
        asset_tier_bps(meme),
        meme.max_sell_bps,
    ) {
        Some(MemeTemplateError::ExceedsFibSell)
    } else if lp_amount_of(request.amount_in, meme.swap_fee_bps) < 0 {
        Some(MemeTemplateError::Overflow)
    } else {
        None
    }
}

/// The tokens that a buy of `paid` mints before bonding: `paid *
/// reserve_tokens / reserve_base`, rounded down; none from an empty base
/// reserve.
pub open spec fn curve_tokens_out(meme: MemeToken, paid: int) -> int {
    if meme.vault_sol == 0 {
        0
    } else {
        (paid * meme.vault_tokens as int) / (meme.vault_sol as int)
    }
}

/// The base currency that a sell of `tokens_in` returns before bonding:
/// `tokens_in * reserve_base / reserve_tokens`, rounded down; none from an
/// empty token reserve.
pub open spec fn curve_base_out(meme: MemeToken, tokens_in: int) -> int {
    if meme.vault_tokens == 0 {
        0
    } else {
        (tokens_in * meme.vault_sol as int) / (meme.vault_tokens as int)
    }
}

/// Whether the internal leg cannot carry the swap out: the reserve that
/// pays out would be overdrawn or the reserve that takes in would leave
/// its range.
pub open spec fn curve_fails(meme: MemeToken, lp_amount: int, is_buy: bool) -> bool {
    if is_buy {
        curve_tokens_out(meme, lp_amount) > meme.vault_tokens || meme.vault_sol + lp_amount
            > u64::MAX
    } else {
        curve_base_out(meme, lp_amount) > meme.vault_sol || meme.vault_tokens + lp_amount
            > u64::MAX
    }
}

/// The leg that carries the swap out: the liquidity pool for a bonded
/// asset, the internal leg otherwise.
pub open spec fn leg_of(meme: MemeToken, lp_amount: u64, request: TaxRequest) -> ExchangeLeg {
    if meme.bonded {
        ExchangeLeg::Amm {
            order: ExchangeOrder {
                source_amount: lp_amount,
                minimum_out: request.min_out,
                is_buy: request.is_buy,
            },
        }
    } else if request.is_buy {
        ExchangeLeg::CurveBuy {
            paid: lp_amount,
            tokens_out: curve_tokens_out(meme, lp_amount as int) as u64,
        }
    } else {
        ExchangeLeg::CurveSell {
            tokens_in: lp_amount,
            base_out: curve_base_out(meme, lp_amount as int) as u64,
        }
    }
}

/// The vault's base reserve after the swap.
pub open spec fn vault_sol_after(meme: MemeToken, lp_amount: u64, is_buy: bool) -> int {
    if meme.bonded {
        meme.vault_sol as int
    } else if is_buy {
        meme.vault_sol + lp_amount
    } else {
        meme.vault_sol - curve_base_out(meme, lp_amount as int)
    }
}

/// The vault's token reserve after the swap.
pub open spec fn vault_tokens_after(meme: MemeToken, lp_amount: u64, is_buy: bool) -> int {
    if meme.bonded {
        meme.vault_tokens as int
    } else if is_buy {
        meme.vault_tokens - curve_tokens_out(meme, lp_amount as int)
    } else {
        meme.vault_tokens + lp_amount
    }
}

/// Whether the swap makes the asset bond: it is not bonded yet and its base
/// reserve reaches the bonding threshold.
pub open spec fn bonds_now(meme: MemeToken, lp_amount: u64, is_buy: bool) -> bool {
    !meme.bonded && vault_sol_after(meme, lp_amount, is_buy) >= BOND_THRESHOLD_SOL
}

/// Whether the swap starts the airdrop: it is enabled, has not started and
/// the registry has enough claimers.
pub open spec fn airdrop_starts(meme: MemeToken, airdrop_claimers: u64) -> bool {
    meme.airdrop_enabled && !meme.airdrop_triggered && airdrop_claimers >= AIRDROP_TRIGGER_COUNT
}

/// Why no plan is made for a request, if none is: one of the asset's own
/// gates; the coordinator's tax routine; the internal leg; a treasurer
/// without token account where a fee is due; the swap counter.
pub open spec fn plan_failure<D: SwapDelegate>(
    ctx: Swap<D>,
    request: TaxRequest,
    signature_ok: bool,
    now: i64,
    slot: u64,
) -> Option<SwapFailure> {
    let meme = ctx.meme_token;
    let lp_amount = lp_amount_of(request.amount_in, meme.swap_fee_bps);
    match template_gate_failure(ctx, request, now) {
        Some(e) => Some(SwapFailure::Template(e)),
        None => match ctx.mothership.tax_failure(request, signature_ok, now, slot) {
            Some(e) => Some(SwapFailure::Coordinator(e)),
            None => if !meme.bonded && curve_fails(meme, lp_amount, request.is_buy) {
                Some(SwapFailure::Template(MemeTemplateError::Overflow))
            } else if child_local_tax(request.amount_in, meme.swap_fee_bps) > 0 && ata_bytes(
                meme.treasurer,
                ctx.sol_mint,
            ) is None {
                Some(SwapFailure::Template(MemeTemplateError::InvalidArgument))
            } else if meme.swap_count == u64::MAX {
                Some(SwapFailure::Template(MemeTemplateError::Overflow))
            } else {
                None
            },
        },
    }
}

/// Bonding is final and happens once: a swap of a bonded asset leaves it
/// bonded, with the same pool and the same reserves, and creates no pool;
/// and a swap that creates a pool leaves the asset bonded to it.
pub proof fn lemma_bonding_is_final<D: SwapDelegate>(
    before: Swap<D>,
    after: Swap<D>,
    plan: SwapPlan,
    request: TaxRequest,
    now: i64,
    slot: u64,
)
    requires
        is_plan_of(plan, before, request),
        child_swap_committed(before, after, plan, request, now, slot),
    ensures
        before.meme_token.bonded ==> {
            &&& after.meme_token.bonded
            &&& !plan.create_pool
            &&& after.meme_token.lp_addr == before.meme_token.lp_addr
            &&& after.meme_token.vault_sol == before.meme_token.vault_sol
            &&& after.meme_token.vault_tokens == before.meme_token.vault_tokens
        },
        plan.create_pool ==> {
            &&& !before.meme_token.bonded
            &&& after.meme_token.bonded
            &&& after.meme_token.lp_addr == Some(before.pool_state)
            &&& after.meme_token.vault_sol >= BOND_THRESHOLD_SOL
        },
        after.meme_token.bonded <==> before.meme_token.bonded || plan.create_pool,
{
}

/// A swap that went through does not go through a second time: after a
/// committed swap the same request fails, at whatever time, in whatever
/// block, whatever its signature test says and whatever the exchange leg
/// answers.
pub proof fn lemma_child_swap_not_replayable<D: SwapDelegate>(
    before: Swap<D>,
    after: Swap<D>,
    plan: SwapPlan,
    request: TaxRequest,
    signature_ok: bool,
    now: i64,
    slot: u64,
    exchange: ExchangeOutcome,
    signature_ok_again: bool,
    later: i64,
    later_slot: u64,
    exchange_again: ExchangeOutcome,
)
    requires
        child_swap_failure(before, request, signature_ok, now, slot, exchange) is None,
        child_swap_committed(before, after, plan, request, now, slot),
    ensures
        after.mothership.nonce() == before.mothership.nonce() + 1,
        child_swap_failure(after, request, signature_ok_again, later, later_slot, exchange_again)
            is Some,
{
    assert(plan_failure(before, request, signature_ok, now, slot) is None);
    assert(before.mothership.tax_failure(request, signature_ok, now, slot) is None);
    before.mothership.lemma_taxed_once(
        after.mothership,
        request,
        signature_ok,
        now,
        slot,
        signature_ok_again,
        later,
        later_slot,
    );
}

/// Why a swap fails, if it does: for the reasons for which no plan is made,
/// or because the liquidity pool of a bonded asset turned the order down.
pub open spec fn child_swap_failure<D: SwapDelegate>(
    ctx: Swap<D>,
    request: TaxRequest,
    signature_ok: bool,
    now: i64,
    slot: u64,
    exchange: ExchangeOutcome,
) -> Option<SwapFailure> {
    if plan_failure(ctx, request, signature_ok, now, slot) is Some {
        plan_failure(ctx, request, signature_ok, now, slot)
    } else if ctx.meme_token.bonded && exchange is Rejected {
        Some(SwapFailure::ExchangeRejected)
    } else {
        None
    }
}

/// Whether `plan` is the plan of the request.
pub open spec fn is_plan_of<D: SwapDelegate>(plan: SwapPlan, ctx: Swap<D>, request: TaxRequest) -> bool {
    let meme = ctx.meme_token;
    &&& plan.global_tax == child_global_tax(request.amount_in)
    &&& plan.local_tax == child_local_tax(request.amount_in, meme.swap_fee_bps)
    &&& plan.lp_amount == lp_amount_of(request.amount_in, meme.swap_fee_bps)
    &&& plan.global_tax + plan.local_tax + plan.lp_amount == request.amount_in
    &&& plan.leg == leg_of(meme, plan.lp_amount, request)
    &&& plan.vault_sol == vault_sol_after(meme, plan.lp_amount, request.is_buy)
    &&& plan.vault_tokens == vault_tokens_after(meme, plan.lp_amount, request.is_buy)
    &&& plan.create_pool == bonds_now(meme, plan.lp_amount, request.is_buy)
    &&& plan.trigger_airdrop == airdrop_starts(meme, ctx.airdrop_claimers)
    &&& match plan.treasury_account {
        Some(account) => plan.local_tax > 0 && ata_bytes(meme.treasurer, ctx.sol_mint) == Some(
            account@,
        ),
        None => plan.local_tax == 0,
    }
}

/// The asset after a swap with the given plan: the reserves as the plan
/// leaves them; bonded, with the pool's address noted, where the swap made
/// it bond; the airdrop marked as started where the swap started it; one
/// swap more.
pub open spec fn meme_after_swap(meme: MemeToken, plan: SwapPlan, pool_state: Address) -> MemeToken {
    MemeToken {
        vault_sol: plan.vault_sol,
        vault_tokens: plan.vault_tokens,
        bonded: meme.bonded || plan.create_pool,
        lp_addr: if plan.create_pool {
            Some(pool_state)
        } else {
            meme.lp_addr
        },
        airdrop_triggered: meme.airdrop_triggered || plan.trigger_airdrop,
        swap_count: (meme.swap_count + 1) as u64,
        ..meme
    }
}

/// Whether `after` is what a committed swap at time `now` leaves of
/// `before`.
pub open spec fn child_swap_committed<D: SwapDelegate>(
    before: Swap<D>,
    after: Swap<D>,
    plan: SwapPlan,
    request: TaxRequest,
    now: i64,
    slot: u64,
) -> bool {
    &&& after.meme_token == meme_after_swap(before.meme_token, plan, before.pool_state)
    &&& after.user_state == (UserSwapState { last_swap_timestamp: now, ..before.user_state })
    &&& after.user_token_amount == before.user_token_amount
    &&& after.airdrop_claimers == before.airdrop_claimers
    &&& after.pool_state == before.pool_state
    &&& after.sol_mint == before.sol_mint
    &&& before.mothership.tax_applied(after.mothership, request, slot)
}

/// Passes the asset's own gates and computes the two taxes and what they
/// leave.
fn check_template_gates<D: SwapDelegate>(ctx: &Swap<D>, request: &TaxRequest, now: i64) -> (r: Result<
    (u64, u64, u64),
    MemeTemplateError,
>)
    ensures
        failure(r) == template_gate_failure(*ctx, *request, now),
        r matches Ok(taxes) ==> {
            &&& taxes.0 == child_global_tax(request.amount_in)
            &&& taxes.1 == child_local_tax(request.amount_in, ctx.meme_token.swap_fee_bps)
            &&& taxes.2 == lp_amount_of(request.amount_in, ctx.meme_token.swap_fee_bps)
        },
{
    if !ctx.meme_token.live {
        return Err(MemeTemplateError::NotLive);
    }
    if (now as i128) - (ctx.meme_token.created_at as i128) < (LAUNCH_COOLDOWN as i128) {
        return Err(MemeTemplateError::AntiSniperCooldown);
    }
    if !request.is_buy && (now as i128) - (ctx.user_state.last_swap_timestamp as i128) < (
    ctx.meme_token.sell_cooldown as i128) {
        return Err(MemeTemplateError::InvalidArgument);
    }
    let mcap: u64 = current_valuation(
        ctx.meme_token.vault_sol,
        ctx.meme_token.total_supply,
        ctx.meme_token.vault_tokens,
    );
    let fib_bps: u64 = get_fib_tier(mcap, ctx.meme_token.top_tier_mcap_sol);
    if request.is_buy {
        let cap: u128 = swap_cap(ctx.meme_token.total_supply, fib_bps, ctx.meme_token.max_buy_bps);
        if request.amount_in as u128 > cap {
            return Err(MemeTemplateError::ExceedsFibBuy);
        }
    } else {
        let cap: u128 = swap_cap(ctx.user_token_amount, fib_bps, ctx.meme_token.max_sell_bps);
        if request.amount_in as u128 > cap {
            return Err(MemeTemplateError::ExceedsFibSell);
        }
    }
    let global_wide: u128 = mul_div(request.amount_in, GLOBAL_TAX, 10_000);
    let local_wide: u128 = mul_div(request.amount_in, ctx.meme_token.swap_fee_bps, 10_000);
    assert(0 <= global_wide <= request.amount_in) by (nonlinear_arith)
        requires
            global_wide == (request.amount_in as int * 100) / 10_000,
    ;
    assert(0 <= local_wide) by (nonlinear_arith)
        requires
            local_wide == (request.amount_in as int * ctx.meme_token.swap_fee_bps as int) / 10_000,
    ;
    if local_wide > request.amount_in as u128 || global_wide + local_wide
        > request.amount_in as u128 {
        return Err(MemeTemplateError::Overflow);
    }
    let global_tax: u64 = global_wide as u64;
    let local_tax: u64 = local_wide as u64;
    Ok((global_tax, local_tax, request.amount_in - global_tax - local_tax))
}

/// Plans the internal leg of an asset that has not bonded.
fn plan_curve(meme: &MemeToken, lp_amount: u64, request: &TaxRequest) -> (r: Option<
    (ExchangeLeg, u64, u64),
>)
    requires
        !meme.bonded,
    ensures
        r is None <==> curve_fails(*meme, lp_amount as int, request.is_buy),
        r matches Some(planned) ==> {
            &&& planned.0 == leg_of(*meme, lp_amount, *request)
            &&& planned.1 == vault_sol_after(*meme, lp_amount, request.is_buy)
            &&& planned.2 == vault_tokens_after(*meme, lp_amount, request.is_buy)
        },
{
    if request.is_buy {
        let out_wide: u128 = if meme.vault_sol == 0 {
            0
        } else {
            mul_div(lp_amount, meme.vault_tokens, meme.vault_sol)
        };
        if out_wide > meme.vault_tokens as u128 {
            return None;
        }
        assert(0 <= out_wide) by (nonlinear_arith)
            requires
                out_wide == curve_tokens_out(*meme, lp_amount as int),
                meme.vault_sol == 0 ==> out_wide == 0,
                meme.vault_sol != 0 ==> out_wide == (lp_amount as int * meme.vault_tokens as int)
                    / (meme.vault_sol as int),
        ;
        let tokens_out: u64 = out_wide as u64;
        match meme.vault_sol.checked_add(lp_amount) {
            None => None,
            Some(vault_sol) => Some(
                (
                    ExchangeLeg::CurveBuy { paid: lp_amount, tokens_out },
                    vault_sol,
                    meme.vault_tokens - tokens_out,
                ),
            ),
        }
    } else {
        let out_wide: u128 = if meme.vault_tokens == 0 {
            0
        } else {
            mul_div(lp_amount, meme.vault_sol, meme.vault_tokens)
        };
        if out_wide > meme.vault_sol as u128 {
            return None;
        }
        let base_out: u64 = out_wide as u64;
        match meme.vault_tokens.checked_add(lp_amount) {
            None => None,
            Some(vault_tokens) => Some(
                (
                    ExchangeLeg::CurveSell { tokens_in: lp_amount, base_out },
                    meme.vault_sol - base_out,
                    vault_tokens,
                ),
            ),
        }
    }
}

/// What is taken for the test of a request's signature: what the caller
/// says of it where the caller says anything, the delegate's own verdict
/// otherwise.
pub open spec fn verdict_of<D: SwapDelegate>(
    delegate: D,
    request: TaxRequest,
    said: Option<bool>,
) -> bool {
    match said {
        Some(signature_ok) => signature_ok,
        None => delegate.verdict(request),
    }
}

/// Plans a swap. With `said` the coordinator is told what a test of the
/// signature said; without it the coordinator tests the signature itself.
fn plan_swap<D: SwapDelegate>(
    ctx: &Swap<D>,
    request: &TaxRequest,
    said: Option<bool>,
    now: i64,
    slot: u64,
) -> (r: Result<SwapPlan, SwapFailure>)
    requires
        ctx.mothership.delegate_wf(),
    ensures
        failure(r) == plan_failure(
            *ctx,
            *request,
            verdict_of(ctx.mothership, *request, said),
            now,
            slot,
        ),
        r matches Ok(plan) ==> is_plan_of(plan, *ctx, *request),
{
    let (global_tax, local_tax, lp_amount) = match check_template_gates(ctx, request, now) {
        Ok(taxes) => taxes,
        Err(e) => {
            return Err(SwapFailure::Template(e));
        },
    };
    let examined = match said {
        Some(signature_ok) => ctx.mothership.examine_checked(request, signature_ok, now, slot),
        None => ctx.mothership.examine(request, now, slot),
    };
    match examined {
        Ok(_) => {},
        Err(e) => {
            return Err(SwapFailure::Coordinator(e));
        },
    }
    let (leg, vault_sol, vault_tokens) = if ctx.meme_token.bonded {
        (
            ExchangeLeg::Amm {
                order: ExchangeOrder {
                    source_amount: lp_amount,
                    minimum_out: request.min_out,
                    is_buy: request.is_buy,
                },
            },
            ctx.meme_token.vault_sol,
            ctx.meme_token.vault_tokens,
        )
    } else {
        match plan_curve(&ctx.meme_token, lp_amount, request) {
            Some(planned) => planned,
            None => {
                return Err(SwapFailure::Template(MemeTemplateError::Overflow));
            },
        }
    };
    let treasury_account: Option<Address> = if local_tax > 0 {
        match get_ata(&ctx.meme_token.treasurer, &ctx.sol_mint) {
            Some(account) => Some(account),
            None => {
                return Err(SwapFailure::Template(MemeTemplateError::InvalidArgument));
            },
        }
    } else {
        None
    };
    if ctx.meme_token.swap_count == u64::MAX {
        return Err(SwapFailure::Template(MemeTemplateError::Overflow));
    }
    let create_pool: bool = !ctx.meme_token.bonded && vault_sol >= BOND_THRESHOLD_SOL;
    let trigger_airdrop: bool = ctx.meme_token.airdrop_enabled && !ctx.meme_token.airdrop_triggered
        && ctx.airdrop_claimers >= AIRDROP_TRIGGER_COUNT;
    Ok(
        SwapPlan {
            global_tax,
            local_tax,
            lp_amount,
            treasury_account,
            leg,
            vault_sol,
            vault_tokens,
            create_pool,
            trigger_airdrop,
        },
    )
}

/// Whether `outcome` is what a committed swap hands back: the plan of the
/// request, the coordinator's answer to it, and what the liquidity pool
/// gave, which only a bonded asset has.
pub open spec fn is_outcome_of<D: SwapDelegate>(
    outcome: SwapOutcome,
    ctx: Swap<D>,
    request: TaxRequest,
    exchange: ExchangeOutcome,
) -> bool {
    &&& is_plan_of(outcome.plan, ctx, request)
    &&& is_tax_result(outcome.tax, request, ctx.mothership.requester())
    &&& match outcome.received {
        Some(received) => ctx.meme_token.bonded && exchange == (ExchangeOutcome::Filled {
            received,
        }),
        None => !ctx.meme_token.bonded,
    }
}

/// Carries a swap through. With `said` the coordinator is told what a test
/// of the signature said; without it the coordinator tests the signature
/// itself.
fn carry_swap<D: SwapDelegate>(
    ctx: &mut Swap<D>,
    request: &TaxRequest,
    said: Option<bool>,
    now: i64,
    slot: u64,
    exchange: ExchangeOutcome,
) -> (r: Result<SwapOutcome, SwapFailure>)
    requires
        old(ctx).mothership.delegate_wf(),
    ensures
        final(ctx).mothership.delegate_wf(),
        failure(r) == child_swap_failure(
            *old(ctx),
            *request,
            verdict_of(old(ctx).mothership, *request, said),
            now,
            slot,
            exchange,
        ),
        r is Err ==> *final(ctx) == *old(ctx),
        r is Ok ==> final(ctx).mothership.nonce() == old(ctx).mothership.nonce() + 1,
        r matches Ok(outcome) ==> {
            &&& is_outcome_of(outcome, *old(ctx), *request, exchange)
            &&& child_swap_committed(*old(ctx), *final(ctx), outcome.plan, *request, now, slot)
        },
{
    let plan: SwapPlan = match plan_swap(ctx, request, said, now, slot) {
        Ok(plan) => plan,
        Err(e) => {
            return Err(e);
        },
    };
    let received: Option<u64> = if ctx.meme_token.bonded {
        match exchange {
            ExchangeOutcome::Filled { received } => Some(received),
            ExchangeOutcome::Rejected => {
                return Err(SwapFailure::ExchangeRejected);
            },
        }
    } else {
        None
    };
    let collected = match said {
        Some(signature_ok) => ctx.mothership.collect_checked(request, signature_ok, now, slot),
        None => ctx.mothership.collect(request, now, slot),
    };
    let tax: TaxResult = match collected {
        Ok(tax) => tax,
        Err(e) => {
            return Err(SwapFailure::Coordinator(e));
        },
    };
    ctx.meme_token.vault_sol = plan.vault_sol;
    ctx.meme_token.vault_tokens = plan.vault_tokens;
    if plan.create_pool {
        ctx.meme_token.lp_addr = Some(ctx.pool_state);
        ctx.meme_token.bonded = true;
    }
    if plan.trigger_airdrop {
        ctx.meme_token.airdrop_triggered = true;
    }
    ctx.meme_token.swap_count = ctx.meme_token.swap_count + 1;
    ctx.user_state.last_swap_timestamp = now;
    Ok(SwapOutcome { plan, tax, received })
}

/// Plans a swap of a child asset, given what a test of the signature said.
/// Nothing is changed. The asset's gates are passed, the two taxes are
/// taken off the amount, the coordinator's tax routine is consulted for the
/// same request, and the leg is chosen: the liquidity pool for a bonded
/// asset, the internal leg otherwise.
pub fn quote_swap_checked<D: SwapDelegate>(
    ctx: &Swap<D>,
    request: &TaxRequest,
    signature_ok: bool,
    now: i64,
    slot: u64,
) -> (r: Result<SwapPlan, SwapFailure>)
    requires
        ctx.mothership.delegate_wf(),
    ensures
        failure(r) == plan_failure(*ctx, *request, signature_ok, now, slot),
        r matches Ok(plan) ==> is_plan_of(plan, *ctx, *request),
{
    plan_swap(ctx, request, Some(signature_ok), now, slot)
}

/// Carries a swap of a child asset through, given what a test of the
/// signature said and, for a bonded asset, what the liquidity pool answered
/// to the plan's order. The coordinator taxes the request before the
/// exchange leg; the reserves follow the internal leg; an asset whose base
/// reserve reaches the threshold bonds; the airdrop starts once the
/// registry is long enough; the time of the user's last swap is set. A swap
/// that fails at any point changes nothing.
pub fn swap_checked<D: SwapDelegate>(
    ctx: &mut Swap<D>,
    request: &TaxRequest,
    signature_ok: bool,
    now: i64,
    slot: u64,
    exchange: ExchangeOutcome,
) -> (r: Result<SwapOutcome, SwapFailure>)
    requires
        old(ctx).mothership.delegate_wf(),
    ensures
        final(ctx).mothership.delegate_wf(),
        failure(r) == child_swap_failure(*old(ctx), *request, signature_ok, now, slot, exchange),
        r is Err ==> *final(ctx) == *old(ctx),
        r is Ok ==> final(ctx).mothership.nonce() == old(ctx).mothership.nonce() + 1,
        r matches Ok(outcome) ==> {
            &&& is_outcome_of(outcome, *old(ctx), *request, exchange)
            &&& child_swap_committed(*old(ctx), *final(ctx), outcome.plan, *request, now, slot)
        },
{
    carry_swap(ctx, request, Some(signature_ok), now, slot, exchange)
}

/// Plans a swap of a child asset. The child passes the request on as it
/// came; the coordinator tests the signature itself. See
/// `quote_swap_checked`.
pub fn quote_swap<D: SwapDelegate>(ctx: &Swap<D>, request: &TaxRequest, now: i64, slot: u64) -> (r:
    Result<SwapPlan, SwapFailure>)
    requires
        ctx.mothership.delegate_wf(),
    ensures
        failure(r) == plan_failure(*ctx, *request, ctx.mothership.verdict(*request), now, slot),
        r matches Ok(plan) ==> is_plan_of(plan, *ctx, *request),
{
    plan_swap(ctx, request, None, now, slot)
}

/// Carries a swap of a child asset through. The child passes the request on
/// as it came; the coordinator tests the signature itself. `exchange` is
/// what the liquidity pool answered to the order of the plan that
/// `quote_swap` made, and counts only for a bonded asset. See
/// `swap_checked`.
pub fn swap<D: SwapDelegate>(
    ctx: &mut Swap<D>,
    request: &TaxRequest,
    now: i64,
    slot: u64,
    exchange: ExchangeOutcome,
) -> (r: Result<SwapOutcome, SwapFailure>)
    requires
        old(ctx).mothership.delegate_wf(),
    ensures
        final(ctx).mothership.delegate_wf(),
        failure(r) == child_swap_failure(
            *old(ctx),
            *request,
            old(ctx).mothership.verdict(*request),
            now,
            slot,
            exchange,
        ),
        r is Err ==> *final(ctx) == *old(ctx),
        r is Ok ==> final(ctx).mothership.nonce() == old(ctx).mothership.nonce() + 1,
        r matches Ok(outcome) ==> {
            &&& is_outcome_of(outcome, *old(ctx), *request, exchange)
            &&& child_swap_committed(*old(ctx), *final(ctx), outcome.plan, *request, now, slot)
        },
{
    carry_swap(ctx, request, None, now, slot, exchange)
}

} // verus!
