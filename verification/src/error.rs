//! Why a request is turned down.

use vstd::prelude::*;

verus! {

/// The reasons for which the coordinator rejects a request. A rejected
/// request changes no record.
#[derive(Clone, Copy, Debug, PartialEq, Eq, Structural)]
pub enum SafePumpError {
    /// The record was set up before.
    AlreadyInitialized,
    /// The record was never set up.
    NotInitialized,
    /// The total supply is over the limit.
    InvalidSupply,
    /// The first swap comes too soon after launch.
    AntiSnipeCooldown,
    /// A sum, product or difference left the range of its type.
    Overflow,
    /// The user has not bought often enough for a badge.
    InsufficientBuySwaps,
    /// The badge table is full.
    BadgeHolderLimitReached,
    /// The pair of mint and child program is registered already.
    MemeCoinAlreadyRegistered,
    /// The buys of this block would pass the tier's aggregate cap.
    VelocityExceeded,
    /// The signature or the public key does not decode, or the pairing check fails.
    InvalidSignature,
    /// The supplied nonce is not the vault's current nonce.
    ReplayRejected,
    /// The vault is not the one registered for the user.
    VaultNotRegistered,
    /// The distribution period has not elapsed since the last flush.
    DistributionTooSoon,
    /// The signer is not the treasury wallet.
    Unauthorized,
    /// A sell comes too soon after the user's last swap.
    CooldownNotElapsed,
    /// The burn percentage is over the limit.
    InvalidBurnPercentage,
    /// The share of the liquidity pool does not match the allocations.
    InvalidLpPercentage,
    /// The deployer's and friends' allocations are malformed or too large.
    InvalidFriendsAllocation,
    /// The user has claimed before.
    AirdropClaimed,
    /// The claim list is full.
    AirdropLimitExceeded,
    /// Too few claimers for the airdrop to start.
    AirdropNotTriggered,
    /// The mint's address in base 58 does not end with the required suffix.
    InvalidMintSuffix,
    /// Too many delegated calls in the window.
    CpiRateLimit,
    /// A buy is over the per-swap cap.
    BuyCapExceeded,
    /// A sell is over the per-swap cap.
    SellCapExceeded,
    /// The exchange leg turned the swap down.
    ExchangeRejected,
    /// No address can be derived from the seeds.
    NoProgramAddress,
}

impl SafePumpError {
    /// The text that describes the error.
    pub open spec fn message_spec(&self) -> Seq<char> {
        match self {
            SafePumpError::AlreadyInitialized => "Already initialized"@,
            SafePumpError::NotInitialized => "Not initialized"@,
            SafePumpError::InvalidSupply => "Invalid supply"@,
            SafePumpError::AntiSnipeCooldown => "Anti-sniper cooldown"@,
            SafePumpError::Overflow => "Math error"@,
            SafePumpError::InsufficientBuySwaps => "Insufficient buy swaps"@,
            SafePumpError::BadgeHolderLimitReached => "Badge limit reached"@,
            SafePumpError::MemeCoinAlreadyRegistered => "Meme coin already registered"@,
            SafePumpError::VelocityExceeded => "Exceeds velocity limit"@,
            SafePumpError::InvalidSignature => "Invalid BLS signature"@,
            SafePumpError::ReplayRejected => "Invalid nonce"@,
            SafePumpError::VaultNotRegistered => "Vault not registered"@,
            SafePumpError::DistributionTooSoon => "Distribution period not met"@,
            SafePumpError::Unauthorized => "Unauthorized"@,
            SafePumpError::CooldownNotElapsed => "Sell cooldown not met"@,
            SafePumpError::InvalidBurnPercentage => "Invalid burn percentage"@,
            SafePumpError::InvalidLpPercentage => "Invalid LP percentage"@,
            SafePumpError::InvalidFriendsAllocation => "Invalid friends allocation"@,
            SafePumpError::AirdropClaimed => "Airdrop already claimed"@,
            SafePumpError::AirdropLimitExceeded => "Airdrop limit exceeded"@,
            SafePumpError::AirdropNotTriggered => "Airdrop not triggered"@,
            SafePumpError::InvalidMintSuffix => "Mint must end with SPMP"@,
            SafePumpError::CpiRateLimit => "CPI rate limit"@,
            SafePumpError::BuyCapExceeded => "Exceeds buy cap"@,
            SafePumpError::SellCapExceeded => "Exceeds sell cap"@,
            SafePumpError::ExchangeRejected => "Exchange rejected"@,
            SafePumpError::NoProgramAddress => "No program address"@,
        }
    }

    /// The text that describes the error.
    pub fn message(&self) -> (text: &'static str)
        ensures
            text@ == self.message_spec(),
    {
        match self {
            SafePumpError::AlreadyInitialized => "Already initialized",
            SafePumpError::NotInitialized => "Not initialized",
            SafePumpError::InvalidSupply => "Invalid supply",
            SafePumpError::AntiSnipeCooldown => "Anti-sniper cooldown",
            SafePumpError::Overflow => "Math error",
            SafePumpError::InsufficientBuySwaps => "Insufficient buy swaps",
            SafePumpError::BadgeHolderLimitReached => "Badge limit reached",
            SafePumpError::MemeCoinAlreadyRegistered => "Meme coin already registered",
            SafePumpError::VelocityExceeded => "Exceeds velocity limit",
            SafePumpError::InvalidSignature => "Invalid BLS signature",
            SafePumpError::ReplayRejected => "Invalid nonce",
            SafePumpError::VaultNotRegistered => "Vault not registered",
            SafePumpError::DistributionTooSoon => "Distribution period not met",
            SafePumpError::Unauthorized => "Unauthorized",
            SafePumpError::CooldownNotElapsed => "Sell cooldown not met",
            SafePumpError::InvalidBurnPercentage => "Invalid burn percentage",
            SafePumpError::InvalidLpPercentage => "Invalid LP percentage",
            SafePumpError::InvalidFriendsAllocation => "Invalid friends allocation",
            SafePumpError::AirdropClaimed => "Airdrop already claimed",
            SafePumpError::AirdropLimitExceeded => "Airdrop limit exceeded",
            SafePumpError::AirdropNotTriggered => "Airdrop not triggered",
            SafePumpError::InvalidMintSuffix => "Mint must end with SPMP",
            SafePumpError::CpiRateLimit => "CPI rate limit",
            SafePumpError::BuyCapExceeded => "Exceeds buy cap",
            SafePumpError::SellCapExceeded => "Exceeds sell cap",
            SafePumpError::ExchangeRejected => "Exchange rejected",
            SafePumpError::NoProgramAddress => "No program address",
        }
    }
}

/// The error of a result, if it is one.
pub open spec fn failure<T, E>(r: Result<T, E>) -> Option<E> {
    match r {
        Ok(_) => None,
        Err(e) => Some(e),
    }
}

} // verus!
