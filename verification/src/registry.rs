//! Setting up the coordinator, registering child assets and nonce vaults,
//! treasury withdrawals and badge eligibility.

use vstd::prelude::*;
use crate::address::{derived_bytes, program_address, try_find_program_address, Address};
use crate::badges::{buys_of, BadgeHolderTable, BUY_SWAPS_FOR_BADGE, MAX_BADGE_HOLDERS};
use crate::coordinator::GlobalState;
use crate::error::{failure, SafePumpError};
use crate::nonce::NonceVault;
use crate::orchestrator::UserSwapState;

verus! {

/// The seed of badge mint addresses: `badge`.
pub const BADGE_SEED: [u8; 5] = [98, 97, 100, 103, 101];

/// The child assets that have presented themselves: pairs of a mint and the
/// child program that answers for it.
#[derive(Debug)]
pub struct MemeCoinRegistry {
    pub entries: Vec<(Address, Address)>,
    pub bump: u8,
}

/// The notice that a child asset was registered.
#[derive(Clone, Copy, Debug)]
pub struct HandshakeEvent {
    pub child_program_id: Address,
    pub meme_mint: Address,
    pub deployer: Address,
}

/// The notice that a nonce vault was registered.
#[derive(Clone, Copy, Debug)]
pub struct VaultRegistered {
    pub user: Address,
    pub vault: Address,
}

/// The notice of a treasury withdrawal, which is also the payment to make.
#[derive(Clone, Copy, Debug)]
pub struct TreasuryWithdrawal {
    pub amount: u64,
    pub to: Address,
}

/// The notice that a badge is to be minted.
#[derive(Clone, Copy, Debug)]
pub struct BadgeMinted {
    pub user: Address,
    pub badge_mint: Address,
}

/// Sets the coordinator up, once: the treasury wallet, the launch time and
/// the bump seed are stored. A second call fails with `AlreadyInitialized`
/// and changes nothing.
pub fn initialize_global(state: &mut GlobalState, treasury_wallet: Address, now: i64, bump: u8) -> (r:
    Result<(), SafePumpError>)
    ensures
        r is Err <==> old(state).is_initialized,
        r is Err ==> failure(r) == Some(SafePumpError::AlreadyInitialized) && *final(state) == *old(
            state,
        ),
        r is Ok ==> *final(state) == (GlobalState {
            is_initialized: true,
            treasury_wallet,
            bond_timestamp: now,
            bump,
            ..*old(state)
        }),
{
    if state.is_initialized {
        return Err(SafePumpError::AlreadyInitialized);
    }
    state.is_initialized = true;
    state.treasury_wallet = treasury_wallet;
    state.bond_timestamp = now;
    state.bump = bump;
    Ok(())
}

/// Whether a pair of mint and child program is registered.
pub open spec fn is_registered(entries: Seq<(Address, Address)>, entry: (Address, Address)) -> bool {
    exists|i: int| 0 <= i < entries.len() && entries[i] == entry
}

/// Tells whether a pair of mint and child program is registered.
pub fn has_entry(registry: &MemeCoinRegistry, meme_mint: &Address, child_program_id: &Address) -> (r:
    bool)
    ensures
        r == is_registered(registry.entries@, (*meme_mint, *child_program_id)),
{
    let mut i: usize = 0;
    while i < registry.entries.len()
        invariant
            0 <= i <= registry.entries@.len(),
            forall|j: int|
                0 <= j < i ==> registry.entries@[j] != (*meme_mint, *child_program_id),
        decreases registry.entries@.len() - i,
    {
        let entry: (Address, Address) = registry.entries[i];
        if entry.0.same(meme_mint) && entry.1.same(child_program_id) {
            return true;
        }
        i += 1;
    }
    false
}

/// Why a handshake fails, if it does, given what the test of the mint's
/// suffix said.
pub open spec fn handshake_failure(
    registry: MemeCoinRegistry,
    meme_mint: Address,
    child_program_id: Address,
    mint_ok: bool,
) -> Option<SafePumpError> {
    if !mint_ok {
        Some(SafePumpError::InvalidMintSuffix)
    } else if is_registered(registry.entries@, (meme_mint, child_program_id)) {
        Some(SafePumpError::MemeCoinAlreadyRegistered)
    } else {
        None
    }
}

/// Registers a child asset, given what the test of the mint's suffix said:
/// the pair of its mint and its program is appended, unless the suffix is
/// wrong or the pair is registered already.
pub fn handshake_checked(
    registry: &mut MemeCoinRegistry,
    meme_mint: Address,
    child_program_id: Address,
    deployer: Address,
    mint_ok: bool,
) -> (r: Result<HandshakeEvent, SafePumpError>)
    ensures
        failure(r) == handshake_failure(*old(registry), meme_mint, child_program_id, mint_ok),
        r is Err ==> *final(registry) == *old(registry),
        r matches Ok(event) ==> {
            &&& final(registry).entries@ == old(registry).entries@.push(
                (meme_mint, child_program_id),
            )
            &&& final(registry).bump == old(registry).bump
            &&& event == (HandshakeEvent { child_program_id, meme_mint, deployer })
        },
{
    if !mint_ok {
        return Err(SafePumpError::InvalidMintSuffix);
    }
    if has_entry(registry, &meme_mint, &child_program_id) {
        return Err(SafePumpError::MemeCoinAlreadyRegistered);
    }
    registry.entries.push((meme_mint, child_program_id));
    Ok(HandshakeEvent { child_program_id, meme_mint, deployer })
}

/// Registers a child asset. The mint's address must end, in base 58, with
/// the suffix of registered mints; see `handshake_checked`.
pub fn handshake(
    registry: &mut MemeCoinRegistry,
    meme_mint: Address,
    child_program_id: Address,
    deployer: Address,
) -> (r: Result<HandshakeEvent, SafePumpError>)
    ensures
        failure(r) == handshake_failure(
            *old(registry),
            meme_mint,
            child_program_id,
            meme_mint.has_mint_suffix_spec(),
        ),
        r is Err ==> *final(registry) == *old(registry),
        r matches Ok(event) ==> {
            &&& final(registry).entries@ == old(registry).entries@.push(
                (meme_mint, child_program_id),
            )
            &&& final(registry).bump == old(registry).bump
            &&& event == (HandshakeEvent { child_program_id, meme_mint, deployer })
        },
{
    let mint_ok: bool = meme_mint.has_mint_suffix();
    handshake_checked(registry, meme_mint, child_program_id, deployer, mint_ok)
}

/// Registers a user's nonce vault: a fresh vault, with nonce zero and no
/// signer, whose address is noted in the user's swap state.
pub fn register_vault(user_state: &mut UserSwapState, user: Address, vault_address: Address, bump: u8) -> (r:
    (NonceVault, VaultRegistered))
    ensures
        r.0.nonce == 0,
        r.0.bump == bump,
        r.0.last_signer.is_zero(),
        r.1 == (VaultRegistered { user, vault: vault_address }),
        *final(user_state) == (UserSwapState { vault: vault_address, ..*old(user_state) }),
{
    let vault = NonceVault::new(bump);
    user_state.vault = vault_address;
    (vault, VaultRegistered { user, vault: vault_address })
}

/// Authorises a withdrawal from the treasury: only the treasury wallet may
/// sign for one. The answer is the payment to make.
pub fn withdraw_treasury(state: &GlobalState, signer: &Address, destination: Address, amount: u64) -> (r:
    Result<TreasuryWithdrawal, SafePumpError>)
    ensures
        r is Ok <==> *signer == state.treasury_wallet,
        r is Err ==> failure(r) == Some(SafePumpError::Unauthorized),
        r matches Ok(withdrawal) ==> withdrawal == (TreasuryWithdrawal { amount, to: destination }),
{
    if !signer.same(&state.treasury_wallet) {
        return Err(SafePumpError::Unauthorized);
    }
    Ok(TreasuryWithdrawal { amount, to: destination })
}

/// The seeds of a user's badge mint for an asset.
pub open spec fn badge_seeds(mint: Address, user: Address) -> Seq<Seq<u8>> {
    seq![BADGE_SEED@, mint@, user@]
}

/// Why no badge is minted, if none is: too few buys; a full table; no
/// address for the badge's mint.
pub open spec fn badge_failure(
    holders: BadgeHolderTable,
    user: Address,
    mint: Address,
    program_id: Address,
) -> Option<SafePumpError> {
    if buys_of(holders@, user) < BUY_SWAPS_FOR_BADGE {
        Some(SafePumpError::InsufficientBuySwaps)
    } else if holders@.len() >= MAX_BADGE_HOLDERS {
        Some(SafePumpError::BadgeHolderLimitReached)
    } else if program_address(badge_seeds(mint, user), program_id@) is None {
        Some(SafePumpError::NoProgramAddress)
    } else {
        None
    }
}

/// Decides whether a user has earned a badge for an asset, and if so says
/// which mint to mint it from: the address that the program derives from
/// the badge seed, the asset's mint and the user.
pub fn mint_badge(holders: &BadgeHolderTable, user: &Address, mint: &Address, program_id: &Address) -> (r:
    Result<BadgeMinted, SafePumpError>)
    requires
        holders.wf(),
    ensures
        failure(r) == badge_failure(*holders, *user, *mint, *program_id),
        r matches Ok(event) ==> event.user == *user && derived_bytes(
            badge_seeds(*mint, *user),
            program_id@,
        ) == Some(event.badge_mint@),
{
    let count: u64 = holders.buy_count(user);
    if count < BUY_SWAPS_FOR_BADGE {
        return Err(SafePumpError::InsufficientBuySwaps);
    }
    if holders.holder_count() >= MAX_BADGE_HOLDERS as u64 {
        return Err(SafePumpError::BadgeHolderLimitReached);
    }
    let mut seeds: Vec<Vec<u8>> = Vec::new();
    seeds.push(badge_seed());
    seeds.push(mint.to_vec());
    seeds.push(user.to_vec());
    assert(seeds.deep_view() =~~= badge_seeds(*mint, *user));
    match try_find_program_address(&seeds, program_id) {
        Some((badge_mint, _)) => Ok(BadgeMinted { user: *user, badge_mint }),
        None => Err(SafePumpError::NoProgramAddress),
    }
}

/// The badge seed as a vector.
fn badge_seed() -> (v: Vec<u8>)
    ensures
        v@ == BADGE_SEED@,
{
    let mut v: Vec<u8> = Vec::new();
    let mut i: usize = 0;
    while i < 5
        invariant
            0 <= i <= 5,
            v@ == BADGE_SEED@.subrange(0, i as int),
        decreases 5 - i,
    {
        v.push(BADGE_SEED[i]);
        assert(v@ =~= BADGE_SEED@.subrange(0, i + 1));
        i += 1;
    }
    assert(BADGE_SEED@.subrange(0, 5) =~= BADGE_SEED@);
    v
}

} // verus!
