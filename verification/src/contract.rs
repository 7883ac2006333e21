//! The record of a launched token.

use vstd::prelude::*;
use crate::address::{ata_bytes, get_ata, Address};
use crate::error::{failure, SafePumpError};
use crate::tax::mul_div;

verus! {

/// Most friends' wallets that share in a launch.
pub const MAX_FRIENDS_WALLETS: usize = 4;

/// The record of a launched token: its supply, its allocations and what
/// its vaults hold.
#[derive(Clone, Copy, Debug)]
pub struct TokenContract {
    pub is_initialized: bool,
    pub total_supply: u64,
    pub treasury_wallet: Address,
    pub swap_count: u64,
    pub total_swapped: u64,
    pub vault_sol_balance: u64,
    pub vault_token_balance: u64,
    pub burned_tokens: u64,
    pub burn_percentage: u8,
    pub bond_timestamp: i64,
    pub buy_cap_percentage: u64,
    pub liquidity_threshold_index: u8,
    pub friends_wallets: [Address; 4],
    pub friends_amounts: [u64; 4],
    pub deployer_amount: u64,
    pub bump: u8,
    pub badge_mint: Option<Address>,
    pub badge_master_edition: Option<Address>,
}

/// Tokens to mint into the token account of an owner.
#[derive(Clone, Copy, Debug)]
pub struct TokenMint {
    pub owner: Address,
    /// The owner's associated token account for the asset's mint.
    pub token_account: Address,
    pub amount: u64,
}

/// Whether `minted` is the minting for `recipient`: the same owner and
/// amount, into the owner's associated token account for `mint`.
pub open spec fn is_mint_for(minted: TokenMint, recipient: (Address, u64), mint: Address) -> bool {
    &&& minted.owner == recipient.0
    &&& minted.amount == recipient.1
    &&& ata_bytes(recipient.0, mint) == Some(minted.token_account@)
}

/// Whether some recipient has no associated token account.
pub open spec fn lacks_account(list: Seq<(Address, u64)>, mint: Address) -> bool {
    exists|i: int| 0 <= i < list.len() && ata_bytes(#[trigger] list[i].0, mint) is None
}

/// Whether `mints` are the mintings for `list`, one for each recipient in
/// order.
pub open spec fn are_mints_for(mints: Seq<TokenMint>, list: Seq<(Address, u64)>, mint: Address) -> bool {
    &&& mints.len() == list.len()
    &&& forall|i: int| 0 <= i < mints.len() ==> is_mint_for(#[trigger] mints[i], list[i], mint)
}

/// Largest supply of a launched token.
pub const MAX_SUPPLY: u64 = 1_000_000_000_000_000_000;

/// Most of the supply that the deployer and friends may hold, in basis
/// points.
pub const MAX_ALLOCATION_PERCENT: u64 = 5100;

/// Base currency that seeds the pool at launch.
pub const POOL_SOL_AMOUNT: u64 = 1_000_000_000;

/// Tokens that the badge vault receives at launch.
pub const INITIAL_VAULT_AMOUNT: u64 = 100_000_000_000;

/// What a deployer asks for at the launch of a token.
#[derive(Debug)]
pub struct LaunchParams {
    pub total_supply: u64,
    pub treasury_wallet: Address,
    pub burn_percentage: u8,
    pub lp_percentage: u8,
    pub friends_wallets: Vec<Address>,
    pub friends_amounts: Vec<u64>,
    pub deployer_amount: u64,
}

/// The records that the launch of a token reads and writes.
#[derive(Debug)]
pub struct InitializeContract {
    pub contract: TokenContract,
    pub deployer: Address,
    pub mint: Address,
    /// The bump seed that the contract's address was found with.
    pub contract_bump: u8,
}

/// What the launch of a token asks the ledger and the exchange to do: the
/// mintings, then the transfer of the pool's seed, then the creation of the
/// pool.
#[derive(Debug)]
pub struct LaunchPlan {
    /// Tokens to mint to the deployer and to each friend, in this order.
    pub allocations: Vec<TokenMint>,
    /// Tokens to mint into the liquidity vault.
    pub lp_tokens: u64,
    /// Tokens to mint into the badge vault.
    pub badge_vault_tokens: u64,
    /// Base currency to move from the deployer into the pool's vault.
    pub pool_sol: u64,
}

/// The sum of amounts.
pub open spec fn sum_amounts(amounts: Seq<u64>) -> int
    decreases amounts.len(),
{
    if amounts.len() == 0 {
        0
    } else {
        sum_amounts(amounts.drop_last()) + amounts.last()
    }
}

/// The deployer's and friends' part of the supply, in basis points, rounded
/// down; nothing of an empty supply.
pub open spec fn launch_allocation_bps(params: LaunchParams) -> int {
    if params.total_supply == 0 {
        0
    } else {
        ((params.deployer_amount + sum_amounts(params.friends_amounts@)) * 10_000) / (
        params.total_supply as int)
    }
}

/// What is left of an allocation after the launch burn, rounded down.
pub open spec fn post_burn(amount: u64, burn_percentage: u8) -> int {
    (amount as int * (100 - burn_percentage)) / 100
}

/// Those who receive tokens at launch, each with the amount after the burn:
/// the deployer, then the friends in order.
pub open spec fn launch_recipients(params: LaunchParams, deployer: Address) -> Seq<(Address, u64)> {
    Seq::new(
        params.friends_wallets@.len() + 1,
        |i: int|
            if i == 0 {
                (deployer, post_burn(params.deployer_amount, params.burn_percentage) as u64)
            } else {
                (
                    params.friends_wallets@[i - 1],
                    post_burn(params.friends_amounts@[i - 1], params.burn_percentage) as u64,
                )
            },
    )
}

/// Why a launch is refused, if it is, in the order in which it is examined,
/// given what the test of the mint's suffix said.
pub open spec fn launch_failure(ctx: InitializeContract, params: LaunchParams, mint_ok: bool) -> Option<
    SafePumpError,
> {
    if !mint_ok {
        Some(SafePumpError::InvalidMintSuffix)
    } else if params.total_supply > MAX_SUPPLY {
        Some(SafePumpError::InvalidSupply)
    } else if params.burn_percentage > 50 {
        Some(SafePumpError::InvalidBurnPercentage)
    } else if params.lp_percentage > 100 {
        Some(SafePumpError::InvalidLpPercentage)
    } else if params.friends_wallets@.len() > MAX_FRIENDS_WALLETS {
        Some(SafePumpError::InvalidFriendsAllocation)
    } else if params.friends_wallets@.len() != params.friends_amounts@.len() {
        Some(SafePumpError::InvalidFriendsAllocation)
    } else if launch_allocation_bps(params) > MAX_ALLOCATION_PERCENT {
        Some(SafePumpError::InvalidFriendsAllocation)
    } else if params.lp_percentage != 100 - launch_allocation_bps(params) / 100 {
        Some(SafePumpError::InvalidLpPercentage)
    } else if ctx.contract.is_initialized {
        Some(SafePumpError::AlreadyInitialized)
    } else if lacks_account(launch_recipients(params, ctx.deployer), ctx.mint) {
        Some(SafePumpError::NoProgramAddress)
    } else {
        None
    }
}

/// The first places of `base` replaced by `filling`.
pub open spec fn filled<T>(base: Seq<T>, filling: Seq<T>) -> Seq<T> {
    Seq::new(
        base.len(),
        |i: int|
            if i < filling.len() {
                filling[i]
            } else {
                base[i]
            },
    )
}

/// Whether `after` is the record that an accepted launch at time `now`
/// leaves of `before`.
pub open spec fn launched(
    before: TokenContract,
    after: TokenContract,
    params: LaunchParams,
    now: i64,
    bump: u8,
) -> bool {
    &&& after.is_initialized
    &&& after.total_supply == params.total_supply
    &&& after.treasury_wallet == params.treasury_wallet
    &&& after.burn_percentage == params.burn_percentage
    &&& after.deployer_amount == params.deployer_amount
    &&& after.bond_timestamp == now
    &&& after.bump == bump
    &&& after.friends_wallets@ == filled(before.friends_wallets@, params.friends_wallets@)
    &&& after.friends_amounts@ == filled(before.friends_amounts@, params.friends_amounts@)
    &&& after.swap_count == before.swap_count
    &&& after.total_swapped == before.total_swapped
    &&& after.vault_sol_balance == before.vault_sol_balance
    &&& after.vault_token_balance == before.vault_token_balance
    &&& after.burned_tokens == before.burned_tokens
    &&& after.buy_cap_percentage == before.buy_cap_percentage
    &&& after.liquidity_threshold_index == before.liquidity_threshold_index
    &&& after.badge_mint == before.badge_mint
    &&& after.badge_master_edition == before.badge_master_edition
}

/// Adds up to four amounts to a first one.
fn total_of(first: u64, amounts: &Vec<u64>) -> (total: u128)
    requires
        amounts@.len() <= 4,
    ensures
        total == first + sum_amounts(amounts@),
        total <= 5 * 0xFFFF_FFFF_FFFF_FFFF,
{
    let mut total: u128 = first as u128;
    let mut i: usize = 0;
    assert(amounts@.subrange(0, 0) =~= Seq::<u64>::empty());
    while i < amounts.len()
        invariant
            0 <= i <= amounts@.len() <= 4,
            total == first + sum_amounts(amounts@.subrange(0, i as int)),
            total <= (i + 1) * 0xFFFF_FFFF_FFFF_FFFF,
        decreases amounts@.len() - i,
    {
        assert(amounts@.subrange(0, i + 1).drop_last() =~= amounts@.subrange(0, i as int));
        total = total + (amounts[i] as u128);
        i += 1;
    }
    assert(amounts@.subrange(0, i as int) =~= amounts@);
    total
}

/// Launches a token, given what the test of the mint's suffix said. The
/// request is examined in the order of `launch_failure`; if it is accepted
/// the contract's record is written and the plan says what to mint to the
/// deployer and the friends after the burn, into the liquidity vault and
/// into the badge vault, and what seeds the pool. A refused launch changes
/// nothing.
pub fn initialize_contract_checked(
    ctx: &mut InitializeContract,
    params: &LaunchParams,
    now: i64,
    mint_ok: bool,
) -> (r: Result<LaunchPlan, SafePumpError>)
    ensures
        failure(r) == launch_failure(*old(ctx), *params, mint_ok),
        r is Err ==> *final(ctx) == *old(ctx),
        r matches Ok(plan) ==> {
            &&& launched(old(ctx).contract, final(ctx).contract, *params, now, old(ctx).contract_bump)
            &&& final(ctx).deployer == old(ctx).deployer
            &&& final(ctx).mint == old(ctx).mint
            &&& final(ctx).contract_bump == old(ctx).contract_bump
            &&& are_mints_for(
                plan.allocations@,
                launch_recipients(*params, old(ctx).deployer),
                old(ctx).mint,
            )
            &&& plan.lp_tokens == (params.total_supply as int * params.lp_percentage as int) / 100
            &&& plan.badge_vault_tokens == INITIAL_VAULT_AMOUNT
            &&& plan.pool_sol == POOL_SOL_AMOUNT
        },
{
    if !mint_ok {
        return Err(SafePumpError::InvalidMintSuffix);
    }
    if params.total_supply > MAX_SUPPLY {
        return Err(SafePumpError::InvalidSupply);
    }
    if params.burn_percentage > 50 {
        return Err(SafePumpError::InvalidBurnPercentage);
    }
    if params.lp_percentage > 100 {
        return Err(SafePumpError::InvalidLpPercentage);
    }
    if params.friends_wallets.len() > MAX_FRIENDS_WALLETS {
        return Err(SafePumpError::InvalidFriendsAllocation);
    }
    if params.friends_wallets.len() != params.friends_amounts.len() {
        return Err(SafePumpError::InvalidFriendsAllocation);
    }
    let total: u128 = total_of(params.deployer_amount, &params.friends_amounts);
    let allocation_percent: u128 = if params.total_supply == 0 {
        0
    } else {
        (total * 10_000) / (params.total_supply as u128)
    };
    if allocation_percent > MAX_ALLOCATION_PERCENT as u128 {
        return Err(SafePumpError::InvalidFriendsAllocation);
    }
    if params.lp_percentage as u128 != 100 - allocation_percent / 100 {
        return Err(SafePumpError::InvalidLpPercentage);
    }
    if ctx.contract.is_initialized {
        return Err(SafePumpError::AlreadyInitialized);
    }
    let ghost list = launch_recipients(*params, ctx.deployer);
    let keep: u64 = 100 - params.burn_percentage as u64;
    let mut allocations: Vec<TokenMint> = Vec::new();
    let mut wallets: [Address; 4] = ctx.contract.friends_wallets;
    let mut amounts: [u64; 4] = ctx.contract.friends_amounts;
    let count: usize = params.friends_wallets.len();
    let mut i: usize = 0;
    while i <= count
        invariant
            0 <= i <= count + 1,
            count == params.friends_wallets@.len(),
            count == params.friends_amounts@.len(),
            count <= 4,
            *ctx == *old(ctx),
            keep == 100 - params.burn_percentage,
            params.burn_percentage <= 50,
            list == launch_recipients(*params, ctx.deployer),
            list.len() == count + 1,
            launch_failure(*old(ctx), *params, mint_ok) == if lacks_account(list, ctx.mint) {
                Some(SafePumpError::NoProgramAddress)
            } else {
                None::<SafePumpError>
            },
            allocations@.len() == i,
            forall|k: int|
                0 <= k < i ==> is_mint_for(#[trigger] allocations@[k], list[k], ctx.mint),
            forall|k: int| 0 <= k < i ==> !(ata_bytes(#[trigger] list[k].0, ctx.mint) is None),
            wallets@.len() == 4,
            amounts@.len() == 4,
            forall|k: int|
                0 <= k < 4 ==> wallets@[k] == if k < i - 1 {
                    params.friends_wallets@[k]
                } else {
                    ctx.contract.friends_wallets@[k]
                },
            forall|k: int|
                0 <= k < 4 ==> amounts@[k] == if k < i - 1 {
                    params.friends_amounts@[k]
                } else {
                    ctx.contract.friends_amounts@[k]
                },
        decreases count + 1 - i,
    {
        let owner: Address = if i == 0 {
            ctx.deployer
        } else {
            params.friends_wallets[i - 1]
        };
        let granted: u64 = if i == 0 {
            params.deployer_amount
        } else {
            params.friends_amounts[i - 1]
        };
        let kept: u128 = mul_div(granted, keep, 100);
        assert(kept <= granted) by (nonlinear_arith)
            requires
                kept == (granted as int * keep as int) / 100,
                0 <= keep <= 100,
                granted >= 0,
        ;
        assert(list[i as int] == (owner, kept as u64));
        match get_ata(&owner, &ctx.mint) {
            Some(token_account) => {
                allocations.push(TokenMint { owner, token_account, amount: kept as u64 });
            },
            None => {
                assert(ata_bytes(list[i as int].0, ctx.mint) is None);
                assert(lacks_account(list, ctx.mint));
                return Err(SafePumpError::NoProgramAddress);
            },
        }
        if i > 0 {
            wallets[i - 1] = owner;
            amounts[i - 1] = granted;
        }
        i += 1;
    }
    let lp_wide: u128 = mul_div(params.total_supply, params.lp_percentage as u64, 100);
    assert(lp_wide <= params.total_supply) by (nonlinear_arith)
        requires
            lp_wide == (params.total_supply as int * params.lp_percentage as int) / 100,
            0 <= params.lp_percentage <= 100,
            params.total_supply >= 0,
    ;
    proof {
        assert(wallets@ =~= filled(old(ctx).contract.friends_wallets@, params.friends_wallets@));
        assert(amounts@ =~= filled(old(ctx).contract.friends_amounts@, params.friends_amounts@));
    }
    ctx.contract.is_initialized = true;
    ctx.contract.total_supply = params.total_supply;
    ctx.contract.treasury_wallet = params.treasury_wallet;
    ctx.contract.burn_percentage = params.burn_percentage;
    ctx.contract.deployer_amount = params.deployer_amount;
    ctx.contract.bond_timestamp = now;
    ctx.contract.bump = ctx.contract_bump;
    ctx.contract.friends_wallets = wallets;
    ctx.contract.friends_amounts = amounts;
    Ok(
        LaunchPlan {
            allocations,
            lp_tokens: lp_wide as u64,
            badge_vault_tokens: INITIAL_VAULT_AMOUNT,
            pool_sol: POOL_SOL_AMOUNT,
        },
    )
}

/// Launches a token. The mint's address must end, in base 58, with the
/// suffix of registered mints; see `initialize_contract_checked`.
pub fn initialize_contract(ctx: &mut InitializeContract, params: &LaunchParams, now: i64) -> (r:
    Result<LaunchPlan, SafePumpError>)
    ensures
        failure(r) == launch_failure(*old(ctx), *params, old(ctx).mint.has_mint_suffix_spec()),
        r is Err ==> *final(ctx) == *old(ctx),
        r matches Ok(plan) ==> {
            &&& launched(old(ctx).contract, final(ctx).contract, *params, now, old(ctx).contract_bump)
            &&& final(ctx).deployer == old(ctx).deployer
            &&& final(ctx).mint == old(ctx).mint
            &&& final(ctx).contract_bump == old(ctx).contract_bump
            &&& are_mints_for(
                plan.allocations@,
                launch_recipients(*params, old(ctx).deployer),
                old(ctx).mint,
            )
            &&& plan.lp_tokens == (params.total_supply as int * params.lp_percentage as int) / 100
            &&& plan.badge_vault_tokens == INITIAL_VAULT_AMOUNT
            &&& plan.pool_sol == POOL_SOL_AMOUNT
        },
{
    let mint_ok: bool = ctx.mint.has_mint_suffix();
    initialize_contract_checked(ctx, params, now, mint_ok)
}

/// Why a burn of pool tokens is refused, if it is, given what the test of
/// the mint's suffix said.
pub open spec fn burn_failure(percent: u8, mint_ok: bool) -> Option<SafePumpError> {
    if !mint_ok {
        Some(SafePumpError::InvalidMintSuffix)
    } else if percent > 50 {
        Some(SafePumpError::InvalidBurnPercentage)
    } else {
        None
    }
}

/// Says how many pool tokens to burn from a vault that holds
/// `lp_vault_amount`, given what the test of the mint's suffix said: the
/// given percentage, at most 50, rounded down.
pub fn burn_laser_cpi_checked(lp_vault_amount: u64, percent: u8, mint_ok: bool) -> (r: Result<
    u64,
    SafePumpError,
>)
    ensures
        failure(r) == burn_failure(percent, mint_ok),
        r matches Ok(burn) ==> burn == (lp_vault_amount as int * percent as int) / 100,
{
    if !mint_ok {
        return Err(SafePumpError::InvalidMintSuffix);
    }
    if percent > 50 {
        return Err(SafePumpError::InvalidBurnPercentage);
    }
    let burn: u128 = mul_div(lp_vault_amount, percent as u64, 100);
    assert(burn <= lp_vault_amount) by (nonlinear_arith)
        requires
            burn == (lp_vault_amount as int * percent as int) / 100,
            0 <= percent <= 50,
            lp_vault_amount >= 0,
    ;
    Ok(burn as u64)
}

/// Says how many pool tokens to burn. The pool mint's address must end, in
/// base 58, with the suffix of registered mints; see
/// `burn_laser_cpi_checked`.
pub fn burn_laser_cpi(lp_mint: &Address, lp_vault_amount: u64, percent: u8) -> (r: Result<
    u64,
    SafePumpError,
>)
    ensures
        failure(r) == burn_failure(percent, lp_mint.has_mint_suffix_spec()),
        r matches Ok(burn) ==> burn == (lp_vault_amount as int * percent as int) / 100,
{
    let mint_ok: bool = lp_mint.has_mint_suffix();
    burn_laser_cpi_checked(lp_vault_amount, percent, mint_ok)
}

} // verus!
