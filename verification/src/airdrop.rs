//! The airdrop claim list and the airdrop that it triggers.

use vstd::prelude::*;
use crate::address::{ata_bytes, get_ata, Address};
use crate::contract::{are_mints_for, is_mint_for, lacks_account, TokenContract, TokenMint};
use crate::error::{failure, SafePumpError};
use crate::tax::mul_div;

verus! {

/// Most claimers that the registry takes.
pub const MAX_AIRDROP_CLAIMERS: usize = 10_000;

/// Claimers from which the airdrop may be triggered.
pub const AIRDROP_TRIGGER_COUNT: usize = 1000;

/// Each claimer's share: this part of the supply.
pub const AIRDROP_SHARE_DIVISOR: u64 = 100_000;

/// Those who have claimed, in the order of their claims.
#[derive(Debug)]
pub struct AirdropRegistry {
    pub claimers: Vec<Address>,
    pub bump: u8,
}

/// Whether a user has claimed.
#[derive(Clone, Copy, Debug)]
pub struct AirdropClaimRecord {
    pub claimed: bool,
    pub bump: u8,
}

/// The notice that the airdrop was triggered.
#[derive(Clone, Copy, Debug)]
pub struct AirdropTriggered {
    pub meme_program_id: Address,
    pub claimers: u64,
}

/// What a triggered airdrop asks the ledger to do.
#[derive(Debug)]
pub struct AirdropPlan {
    /// What each claimer gets.
    pub per_user: u64,
    /// What all claimers get together.
    pub total: u64,
    /// The mintings, one for each claimer in the registry's order.
    pub mints: Vec<TokenMint>,
    pub event: AirdropTriggered,
}

/// Whether a user is among the claimers.
pub open spec fn has_claimed(claimers: Seq<Address>, user: Address) -> bool {
    exists|i: int| 0 <= i < claimers.len() && claimers[i] == user
}

/// Tells whether a user is among the claimers.
pub fn is_claimer(registry: &AirdropRegistry, user: &Address) -> (r: bool)
    ensures
        r == has_claimed(registry.claimers@, *user),
{
    let mut i: usize = 0;
    while i < registry.claimers.len()
        invariant
            0 <= i <= registry.claimers@.len(),
            forall|j: int| 0 <= j < i ==> registry.claimers@[j] != *user,
        decreases registry.claimers@.len() - i,
    {
        if registry.claimers[i].same(user) {
            return true;
        }
        i += 1;
    }
    false
}

/// Why a claim is refused, if it is.
pub open spec fn claim_failure(registry: AirdropRegistry, user: Address) -> Option<SafePumpError> {
    if has_claimed(registry.claimers@, user) {
        Some(SafePumpError::AirdropClaimed)
    } else if registry.claimers@.len() >= MAX_AIRDROP_CLAIMERS {
        Some(SafePumpError::AirdropLimitExceeded)
    } else {
        None
    }
}

/// Notes a user's claim: the user joins the registry and the user's record
/// is marked. A user claims once, and the registry takes no more than its
/// capacity. A refused claim changes nothing.
pub fn airdrop_claim(
    registry: &mut AirdropRegistry,
    claim_record: &mut AirdropClaimRecord,
    user: Address,
) -> (r: Result<(), SafePumpError>)
    ensures
        failure(r) == claim_failure(*old(registry), user),
        r is Err ==> *final(registry) == *old(registry) && *final(claim_record) == *old(
            claim_record,
        ),
        r is Ok ==> {
            &&& final(registry).claimers@ == old(registry).claimers@.push(user)
            &&& final(registry).claimers@.len() <= MAX_AIRDROP_CLAIMERS
            &&& final(registry).bump == old(registry).bump
            &&& *final(claim_record) == (AirdropClaimRecord { claimed: true, ..*old(claim_record) })
        },
{
    if is_claimer(registry, &user) {
        return Err(SafePumpError::AirdropClaimed);
    }
    if registry.claimers.len() >= MAX_AIRDROP_CLAIMERS {
        return Err(SafePumpError::AirdropLimitExceeded);
    }
    registry.claimers.push(user);
    claim_record.claimed = true;
    Ok(())
}

/// What each claimer gets of a supply.
pub open spec fn airdrop_share(total_supply: u64) -> int {
    total_supply as int / AIRDROP_SHARE_DIVISOR as int
}

/// Those who receive the airdrop, each with the share.
pub open spec fn airdrop_recipients(claimers: Seq<Address>, total_supply: u64) -> Seq<(Address, u64)> {
    Seq::new(claimers.len(), |i: int| (claimers[i], airdrop_share(total_supply) as u64))
}

/// Why the airdrop is not triggered, if it is not, given what the test of
/// the mint's suffix said: the suffix; too few claimers; the vault does not
/// hold what all claimers get together; a claimer without token account.
pub open spec fn trigger_failure(
    contract: TokenContract,
    registry: AirdropRegistry,
    mint: Address,
    total_supply: u64,
    mint_ok: bool,
) -> Option<SafePumpError> {
    if !mint_ok {
        Some(SafePumpError::InvalidMintSuffix)
    } else if registry.claimers@.len() < AIRDROP_TRIGGER_COUNT {
        Some(SafePumpError::AirdropNotTriggered)
    } else if registry.claimers@.len() * airdrop_share(total_supply)
        > contract.vault_token_balance {
        Some(SafePumpError::Overflow)
    } else if lacks_account(airdrop_recipients(registry.claimers@, total_supply), mint) {
        Some(SafePumpError::NoProgramAddress)
    } else {
        None
    }
}

/// Triggers the airdrop, given what the test of the mint's suffix said.
/// Every claimer gets one hundred-thousandth of the supply, minted into the
/// claimer's token account; what all get together leaves the contract's
/// token vault. A refused trigger changes nothing.
pub fn trigger_airdrop_checked(
    contract: &mut TokenContract,
    registry: &AirdropRegistry,
    mint: &Address,
    total_supply: u64,
    mint_ok: bool,
) -> (r: Result<AirdropPlan, SafePumpError>)
    ensures
        failure(r) == trigger_failure(*old(contract), *registry, *mint, total_supply, mint_ok),
        r is Err ==> *final(contract) == *old(contract),
        r matches Ok(plan) ==> {
            &&& plan.per_user == airdrop_share(total_supply)
            &&& plan.total == registry.claimers@.len() * plan.per_user
            &&& *final(contract) == (TokenContract {
                vault_token_balance: (old(contract).vault_token_balance - plan.total) as u64,
                ..*old(contract)
            })
            &&& are_mints_for(
                plan.mints@,
                airdrop_recipients(registry.claimers@, total_supply),
                *mint,
            )
            &&& plan.event == (AirdropTriggered {
                meme_program_id: *mint,
                claimers: registry.claimers@.len() as u64,
            })
        },
{
    if !mint_ok {
        return Err(SafePumpError::InvalidMintSuffix);
    }
    let count: usize = registry.claimers.len();
    if count < AIRDROP_TRIGGER_COUNT {
        return Err(SafePumpError::AirdropNotTriggered);
    }
    let per_user: u64 = total_supply / AIRDROP_SHARE_DIVISOR;
    let total_wide: u128 = mul_div(count as u64, per_user, 1);
    if total_wide > contract.vault_token_balance as u128 {
        return Err(SafePumpError::Overflow);
    }
    let total: u64 = total_wide as u64;
    let ghost list = airdrop_recipients(registry.claimers@, total_supply);
    let mut mints: Vec<TokenMint> = Vec::new();
    let mut i: usize = 0;
    while i < count
        invariant
            0 <= i <= count,
            count == registry.claimers@.len(),
            *contract == *old(contract),
            per_user == airdrop_share(total_supply),
            list == airdrop_recipients(registry.claimers@, total_supply),
            trigger_failure(*old(contract), *registry, *mint, total_supply, mint_ok) == if lacks_account(
                list,
                *mint,
            ) {
                Some(SafePumpError::NoProgramAddress)
            } else {
                None::<SafePumpError>
            },
            mints@.len() == i,
            forall|k: int| 0 <= k < i ==> is_mint_for(#[trigger] mints@[k], list[k], *mint),
            forall|k: int| 0 <= k < i ==> !(ata_bytes(#[trigger] list[k].0, *mint) is None),
        decreases count - i,
    {
        let claimer: Address = registry.claimers[i];
        assert(list[i as int] == (claimer, per_user));
        match get_ata(&claimer, mint) {
            Some(token_account) => {
                mints.push(TokenMint { owner: claimer, token_account, amount: per_user });
            },
            None => {
                assert(ata_bytes(list[i as int].0, *mint) is None);
                assert(lacks_account(list, *mint));
                return Err(SafePumpError::NoProgramAddress);
            },
        }
        i += 1;
    }
    contract.vault_token_balance = contract.vault_token_balance - total;
    Ok(
        AirdropPlan {
            per_user,
            total,
            mints,
            event: AirdropTriggered { meme_program_id: *mint, claimers: count as u64 },
        },
    )
}

/// Triggers the airdrop. The mint's address must end, in base 58, with the
/// suffix of registered mints; see `trigger_airdrop_checked`.
pub fn trigger_airdrop(
    contract: &mut TokenContract,
    registry: &AirdropRegistry,
    mint: &Address,
    total_supply: u64,
) -> (r: Result<AirdropPlan, SafePumpError>)
    ensures
        failure(r) == trigger_failure(
            *old(contract),
            *registry,
            *mint,
            total_supply,
            mint.has_mint_suffix_spec(),
        ),
        r is Err ==> *final(contract) == *old(contract),
        r matches Ok(plan) ==> {
            &&& plan.per_user == airdrop_share(total_supply)
            &&& plan.total == registry.claimers@.len() * plan.per_user
            &&& *final(contract) == (TokenContract {
                vault_token_balance: (old(contract).vault_token_balance - plan.total) as u64,
                ..*old(contract)
            })
            &&& are_mints_for(
                plan.mints@,
                airdrop_recipients(registry.claimers@, total_supply),
                *mint,
            )
            &&& plan.event == (AirdropTriggered {
                meme_program_id: *mint,
                claimers: registry.claimers@.len() as u64,
            })
        },
{
    let mint_ok: bool = mint.has_mint_suffix();
    trigger_airdrop_checked(contract, registry, mint, total_supply, mint_ok)
}

} // verus!
