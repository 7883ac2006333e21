//! The stealth airdrop vault: the wallets that have swapped, each noted
//! once, up to a fixed number.

use vstd::prelude::*;
use crate::address::Address;
use crate::error::{failure, SafePumpError};

verus! {

/// Most wallets that the vault notes.
pub const MAX_STEALTH_SWAPPERS: u64 = 80_000;

/// The wallets that have swapped, in the order in which they were noted.
#[derive(Debug)]
pub struct StealthAirdropVault {
    pub swappers: Vec<[u8; 32]>,
    pub unique_count: u64,
    pub bump: u8,
}

/// The records that setting up the vault reads and writes.
#[derive(Debug)]
pub struct InitializeStealthVault {
    pub vault: StealthAirdropVault,
    /// The bump seed that the vault's address was found with.
    pub vault_bump: u8,
}

/// The records that noting a swapper reads and writes.
#[derive(Debug)]
pub struct AppendSwapper {
    pub vault: StealthAirdropVault,
    pub user: Address,
}

/// The notice that a wallet was noted.
#[derive(Clone, Copy, Debug)]
pub struct SwapperCaptured {
    pub wallet: Address,
    pub total_unique: u64,
}

/// Whether a wallet is among those noted.
pub open spec fn is_noted(swappers: Seq<[u8; 32]>, wallet: [u8; 32]) -> bool {
    exists|i: int| 0 <= i < swappers.len() && swappers[i] == wallet
}

/// Sets the vault up: no wallet counted, and the bump seed stored.
pub fn initialize_stealth_vault(ctx: &mut InitializeStealthVault) -> (r: Result<(), SafePumpError>)
    ensures
        r is Ok,
        final(ctx).vault.unique_count == 0,
        final(ctx).vault.bump == old(ctx).vault_bump,
        final(ctx).vault.swappers == old(ctx).vault.swappers,
        final(ctx).vault_bump == old(ctx).vault_bump,
{
    ctx.vault.unique_count = 0;
    ctx.vault.bump = ctx.vault_bump;
    Ok(())
}

/// Tells whether a wallet is among those noted.
pub fn is_swapper(vault: &StealthAirdropVault, wallet: &[u8; 32]) -> (r: bool)
    ensures
        r == is_noted(vault.swappers@, *wallet),
{
    let probe = Address::new(*wallet);
    let mut i: usize = 0;
    while i < vault.swappers.len()
        invariant
            0 <= i <= vault.swappers@.len(),
            probe.bytes == *wallet,
            forall|j: int| 0 <= j < i ==> vault.swappers@[j] != *wallet,
        decreases vault.swappers@.len() - i,
    {
        let noted = Address::new(vault.swappers[i]);
        if noted.same(&probe) {
            return true;
        }
        i += 1;
    }
    false
}

/// Why a wallet cannot be noted, if it cannot: it is new and the vault has
/// counted as many wallets as it may.
pub open spec fn append_failure(ctx: AppendSwapper) -> Option<SafePumpError> {
    if !is_noted(ctx.vault.swappers@, ctx.user.bytes) && ctx.vault.unique_count
        >= MAX_STEALTH_SWAPPERS {
        Some(SafePumpError::AirdropLimitExceeded)
    } else {
        None
    }
}

/// Notes the user's wallet. A wallet that is noted already changes nothing
/// and gives no notice; a new wallet is appended and counted, unless the
/// vault is full, which is an error.
pub fn append_swapper(ctx: &mut AppendSwapper) -> (r: Result<Option<SwapperCaptured>, SafePumpError>)
    ensures
        failure(r) == append_failure(*old(ctx)),
        r is Err ==> *final(ctx) == *old(ctx),
        r matches Ok(None) ==> is_noted(old(ctx).vault.swappers@, old(ctx).user.bytes) && *final(ctx)
            == *old(ctx),
        r matches Ok(Some(event)) ==> {
            &&& !is_noted(old(ctx).vault.swappers@, old(ctx).user.bytes)
            &&& final(ctx).vault.swappers@ == old(ctx).vault.swappers@.push(old(ctx).user.bytes)
            &&& final(ctx).vault.unique_count == old(ctx).vault.unique_count + 1
            &&& final(ctx).vault.unique_count <= MAX_STEALTH_SWAPPERS
            &&& final(ctx).vault.bump == old(ctx).vault.bump
            &&& final(ctx).user == old(ctx).user
            &&& event == (SwapperCaptured {
                wallet: old(ctx).user,
                total_unique: final(ctx).vault.unique_count,
            })
        },
{
    let wallet_bytes: [u8; 32] = ctx.user.bytes;
    if is_swapper(&ctx.vault, &wallet_bytes) {
        return Ok(None);
    }
    if ctx.vault.unique_count >= MAX_STEALTH_SWAPPERS {
        return Err(SafePumpError::AirdropLimitExceeded);
    }
    ctx.vault.swappers.push(wallet_bytes);
    ctx.vault.unique_count = ctx.vault.unique_count + 1;
    Ok(Some(SwapperCaptured { wallet: ctx.user, total_unique: ctx.vault.unique_count }))
}

} // verus!
