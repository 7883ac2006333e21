use safe_pump::address::{get_ata, Address};
use safe_pump::airdrop::{
    airdrop_claim, is_claimer, trigger_airdrop, trigger_airdrop_checked, AirdropClaimRecord,
    AirdropRegistry, MAX_AIRDROP_CLAIMERS,
};
use safe_pump::contract::TokenContract;
use safe_pump::error::SafePumpError;

const MINT: [u8; 32] = [
    7, 8, 9, 10, 11, 12, 13, 14, 15, 16, 17, 18, 19, 20, 21, 22, 23, 24, 25, 26, 27, 28, 29, 30,
    31, 32, 33, 34, 34, 198, 221, 14,
];

fn address(n: u32) -> Address {
    let mut bytes = [1u8; 32];
    bytes[..4].copy_from_slice(&n.to_le_bytes());
    Address::new(bytes)
}

fn registry(count: u32) -> AirdropRegistry {
    AirdropRegistry { claimers: (0..count).map(address).collect(), bump: 3 }
}

fn contract(balance: u64) -> TokenContract {
    TokenContract {
        is_initialized: true,
        total_supply: 0,
        treasury_wallet: Address::zero(),
        swap_count: 0,
        total_swapped: 0,
        vault_sol_balance: 11,
        vault_token_balance: balance,
        burned_tokens: 0,
        burn_percentage: 0,
        bond_timestamp: 0,
        buy_cap_percentage: 0,
        liquidity_threshold_index: 0,
        friends_wallets: [Address::zero(); 4],
        friends_amounts: [0; 4],
        deployer_amount: 0,
        bump: 0,
        badge_mint: None,
        badge_master_edition: None,
    }
}

#[test]
fn user_claims_once() {
    let mut reg = registry(0);
    let mut record = AirdropClaimRecord { claimed: false, bump: 8 };
    assert_eq!(airdrop_claim(&mut reg, &mut record, address(5)), Ok(()));
    assert!(record.claimed);
    assert_eq!(record.bump, 8);
    assert_eq!(reg.claimers.len(), 1);
    assert!(is_claimer(&reg, &address(5)));
    assert!(!is_claimer(&reg, &address(6)));
    let mut second = AirdropClaimRecord { claimed: false, bump: 0 };
    assert_eq!(airdrop_claim(&mut reg, &mut second, address(5)), Err(SafePumpError::AirdropClaimed));
    assert!(!second.claimed);
    assert_eq!(reg.claimers.len(), 1);
    assert_eq!(reg.bump, 3);
}

#[test]
fn claim_list_takes_no_more_than_its_capacity() {
    let mut reg = registry(MAX_AIRDROP_CLAIMERS as u32 - 1);
    let mut record = AirdropClaimRecord { claimed: false, bump: 0 };
    assert_eq!(airdrop_claim(&mut reg, &mut record, address(20_000)), Ok(()));
    assert_eq!(reg.claimers.len(), MAX_AIRDROP_CLAIMERS);
    let mut record = AirdropClaimRecord { claimed: false, bump: 0 };
    assert_eq!(
        airdrop_claim(&mut reg, &mut record, address(20_001)),
        Err(SafePumpError::AirdropLimitExceeded)
    );
    assert!(!record.claimed);
    assert_eq!(reg.claimers.len(), MAX_AIRDROP_CLAIMERS);
    assert_eq!(
        airdrop_claim(&mut reg, &mut record, address(20_000)),
        Err(SafePumpError::AirdropClaimed)
    );
}

#[test]
fn airdrop_gives_every_claimer_a_share_of_the_supply() {
    let reg = registry(1_000);
    let mut c = contract(5_000_000);
    let mint = Address::new(MINT);
    let plan = trigger_airdrop(&mut c, &reg, &mint, 123_456_789).unwrap();
    assert_eq!(plan.per_user, 1_234);
    assert_eq!(plan.total, 1_234_000);
    assert_eq!(c.vault_token_balance, 5_000_000 - 1_234_000);
    assert_eq!(c.vault_sol_balance, 11);
    assert_eq!(plan.mints.len(), 1_000);
    assert_eq!(plan.event.claimers, 1_000);
    assert_eq!(plan.event.meme_program_id.bytes, MINT);
    for (i, minted) in plan.mints.iter().enumerate().step_by(333) {
        assert_eq!(minted.owner.bytes, address(i as u32).bytes);
        assert_eq!(minted.amount, 1_234);
        assert_eq!(minted.token_account.bytes, get_ata(&address(i as u32), &mint).unwrap().bytes);
    }
}

#[test]
fn airdrop_waits_for_a_thousand_claimers() {
    let mut c = contract(5_000_000);
    let mint = Address::new(MINT);
    assert!(matches!(
        trigger_airdrop(&mut c, &registry(999), &mint, 100_000),
        Err(SafePumpError::AirdropNotTriggered)
    ));
    assert!(matches!(
        trigger_airdrop(&mut c, &registry(1_000), &Address::new([1; 32]), 100_000),
        Err(SafePumpError::InvalidMintSuffix)
    ));
    assert!(matches!(
        trigger_airdrop_checked(&mut c, &registry(999), &mint, 100_000, false),
        Err(SafePumpError::InvalidMintSuffix)
    ));
    assert_eq!(c.vault_token_balance, 5_000_000);
}

#[test]
fn airdrop_that_overdraws_the_vault_is_an_overflow() {
    let mut c = contract(999);
    let mint = Address::new(MINT);
    assert!(matches!(
        trigger_airdrop(&mut c, &registry(1_000), &mint, 100_000),
        Err(SafePumpError::Overflow)
    ));
    assert_eq!(c.vault_token_balance, 999);
    let mut c = contract(1_000);
    assert!(trigger_airdrop(&mut c, &registry(1_000), &mint, 100_000).is_ok());
    assert_eq!(c.vault_token_balance, 0);
    let mut c = contract(u64::MAX);
    let plan = trigger_airdrop_checked(&mut c, &registry(1_000), &mint, u64::MAX, true).unwrap();
    assert_eq!(plan.per_user, u64::MAX / 100_000);
    assert_eq!(plan.total, u64::MAX / 100_000 * 1_000);
    assert_eq!(c.vault_token_balance, u64::MAX - plan.total);
    let mut c = contract(0);
    let plan = trigger_airdrop_checked(&mut c, &registry(1_000), &mint, 99_999, true).unwrap();
    assert_eq!((plan.per_user, plan.total), (0, 0));
}
