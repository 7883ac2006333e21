use safe_pump::address::Address;
use safe_pump::badges::{BadgeEntry, BadgeHolderTable};
use safe_pump::coordinator::GlobalState;
use safe_pump::error::SafePumpError;
use safe_pump::orchestrator::UserSwapState;
use safe_pump::registry::{
    handshake, handshake_checked, has_entry, initialize_global, mint_badge, register_vault,
    withdraw_treasury, MemeCoinRegistry,
};
use solana_program::pubkey::Pubkey;

const MINT: [u8; 32] = [
    7, 8, 9, 10, 11, 12, 13, 14, 15, 16, 17, 18, 19, 20, 21, 22, 23, 24, 25, 26, 27, 28, 29, 30,
    31, 32, 33, 34, 34, 198, 221, 14,
];

fn state() -> GlobalState {
    GlobalState {
        is_initialized: false,
        treasury_wallet: Address::zero(),
        total_swapped: 5,
        swap_count: 6,
        bond_timestamp: 0,
        bump: 0,
    }
}

#[test]
fn coordinator_is_set_up_once() {
    let mut s = state();
    assert_eq!(initialize_global(&mut s, Address::new([3; 32]), 1_234, 250), Ok(()));
    assert!(s.is_initialized);
    assert_eq!(s.treasury_wallet.bytes, [3; 32]);
    assert_eq!((s.bond_timestamp, s.bump, s.total_swapped, s.swap_count), (1_234, 250, 5, 6));
    assert_eq!(
        initialize_global(&mut s, Address::new([4; 32]), 9_999, 1),
        Err(SafePumpError::AlreadyInitialized)
    );
    assert_eq!(s.treasury_wallet.bytes, [3; 32]);
    assert_eq!((s.bond_timestamp, s.bump), (1_234, 250));
}

#[test]
fn child_asset_is_registered_once() {
    let mut registry = MemeCoinRegistry { entries: Vec::new(), bump: 7 };
    let mint = Address::new(MINT);
    let child = Address::new([5; 32]);
    let deployer = Address::new([6; 32]);
    let event = handshake(&mut registry, mint, child, deployer).unwrap();
    assert_eq!(event.meme_mint.bytes, MINT);
    assert_eq!(event.child_program_id.bytes, [5; 32]);
    assert_eq!(event.deployer.bytes, [6; 32]);
    assert_eq!(registry.entries.len(), 1);
    assert!(has_entry(&registry, &mint, &child));
    assert!(!has_entry(&registry, &mint, &deployer));
    assert!(!has_entry(&registry, &child, &child));
    assert!(matches!(
        handshake(&mut registry, mint, child, deployer),
        Err(SafePumpError::MemeCoinAlreadyRegistered)
    ));
    assert_eq!(registry.entries.len(), 1);
    assert!(handshake(&mut registry, mint, deployer, deployer).is_ok());
    assert_eq!(registry.entries.len(), 2);
    assert_eq!(registry.bump, 7);
}

#[test]
fn mint_without_the_suffix_is_not_registered() {
    let mut registry = MemeCoinRegistry { entries: Vec::new(), bump: 7 };
    let r = handshake(&mut registry, Address::new([1; 32]), Address::new([5; 32]), Address::zero());
    assert!(matches!(r, Err(SafePumpError::InvalidMintSuffix)));
    assert!(registry.entries.is_empty());
    let r = handshake_checked(&mut registry, Address::new([1; 32]), Address::zero(), Address::zero(), true);
    assert!(r.is_ok());
    let r = handshake_checked(&mut registry, Address::new([1; 32]), Address::zero(), Address::zero(), false);
    assert!(matches!(r, Err(SafePumpError::InvalidMintSuffix)));
}

#[test]
fn vault_is_registered_with_nonce_zero() {
    let mut user_state = UserSwapState {
        last_swap_timestamp: 4,
        last_cpi_timestamp: 5,
        cpi_count: 6,
        bump: 7,
        vault: Address::zero(),
    };
    let (vault, event) = register_vault(&mut user_state, Address::new([1; 32]), Address::new([2; 32]), 9);
    assert_eq!((vault.nonce, vault.bump), (0, 9));
    assert_eq!(vault.last_signer.bytes, [0; 32]);
    assert_eq!(event.user.bytes, [1; 32]);
    assert_eq!(event.vault.bytes, [2; 32]);
    assert_eq!(user_state.vault.bytes, [2; 32]);
    assert_eq!(
        (user_state.last_swap_timestamp, user_state.last_cpi_timestamp, user_state.cpi_count, user_state.bump),
        (4, 5, 6, 7)
    );
}

#[test]
fn only_the_treasury_wallet_withdraws() {
    let mut s = state();
    initialize_global(&mut s, Address::new([3; 32]), 0, 0).unwrap();
    let w = withdraw_treasury(&s, &Address::new([3; 32]), Address::new([8; 32]), 77).unwrap();
    assert_eq!((w.amount, w.to.bytes), (77, [8; 32]));
    assert!(matches!(
        withdraw_treasury(&s, &Address::new([4; 32]), Address::new([8; 32]), 77),
        Err(SafePumpError::Unauthorized)
    ));
}

#[test]
fn badge_needs_a_thousand_buys_and_room_in_the_table() {
    let user = Address::new([1; 32]);
    let mint = Address::new(MINT);
    let program = Address::new([0x77; 32]);
    let table = |count: u64| {
        BadgeHolderTable::from_entries(vec![BadgeEntry { holder: user, buy_count: count }], 0).unwrap()
    };
    assert!(matches!(
        mint_badge(&table(999), &user, &mint, &program),
        Err(SafePumpError::InsufficientBuySwaps)
    ));
    assert!(matches!(
        mint_badge(&table(5_000), &Address::new([2; 32]), &mint, &program),
        Err(SafePumpError::InsufficientBuySwaps)
    ));
    let event = mint_badge(&table(1_000), &user, &mint, &program).unwrap();
    assert_eq!(event.user.bytes, user.bytes);
    let (expected, _) = Pubkey::find_program_address(
        &[b"badge", &MINT, &user.bytes],
        &Pubkey::new_from_array(program.bytes),
    );
    assert_eq!(event.badge_mint.bytes, expected.to_bytes());
    let mut entries: Vec<BadgeEntry> = (0..1_000u32)
        .map(|n| {
            let mut bytes = [9u8; 32];
            bytes[..4].copy_from_slice(&n.to_le_bytes());
            BadgeEntry { holder: Address::new(bytes), buy_count: 1_000 }
        })
        .collect();
    entries[0].holder = user;
    let full = BadgeHolderTable::from_entries(entries, 0).unwrap();
    assert!(matches!(
        mint_badge(&full, &user, &mint, &program),
        Err(SafePumpError::BadgeHolderLimitReached)
    ));
}
