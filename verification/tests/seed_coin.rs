use blstrs::{G1Affine, G1Projective, G2Projective, Scalar};
use safe_pump::address::{get_ata, Address};
use safe_pump::admission::VelocityWindow;
use safe_pump::badges::BadgeHolderTable;
use safe_pump::coordinator::{GlobalState, GlobalTaxSwap, Pool, TaxRequest};
use safe_pump::error::SafePumpError;
use safe_pump::nonce::NonceVault;
use safe_pump::orchestrator::{ExchangeOutcome, UserSwapState};
use safe_pump::rewards::RewardLedger;
use safe_pump::seed_coin::{
    initialize_meme, mint_to_vault, quote_swap, quote_swap_checked, swap, swap_checked,
    ExchangeLeg, InitializeMeme, MemeConfig, MemeTemplateError, MemeToken, MintToVault, Swap,
    SwapFailure, BOND_THRESHOLD_SOL,
};
use safe_pump::signature::{encode_message, SwapRequest, G1_GENERATOR};

const SOL: u64 = 1_000_000_000;
const SUPPLY: u64 = 1_000_000_000_000_000;

fn blank() -> MemeToken {
    MemeToken {
        total_supply: 0,
        name: String::new(),
        symbol: String::new(),
        description: String::new(),
        swap_fee_bps: 0,
        max_buy_bps: 0,
        max_sell_bps: 0,
        sell_cooldown: 0,
        burn_lp_percent: 0,
        friends: [Address::zero(); 4],
        friend_amounts: [0; 4],
        deployer_amount: 0,
        treasurer: Address::zero(),
        vault_sol: 0,
        vault_tokens: 0,
        burned: 0,
        created_at: 0,
        live: false,
        bonded: false,
        lp_addr: None,
        lp_percent: 0,
        seed_sol: 0,
        swap_count: 0,
        airdrop_enabled: false,
        airdrop_count: 0,
        top_tier_mcap_sol: 0,
        airdrop_triggered: false,
    }
}

fn config() -> MemeConfig {
    MemeConfig {
        total_supply: SUPPLY,
        name: "Seed".to_string(),
        symbol: "SEED".to_string(),
        description: "A seed coin".to_string(),
        swap_fee_bps: 100,
        max_buy_bps: 100,
        max_sell_bps: 50,
        sell_cooldown: 900,
        burn_lp_percent: 10,
        friends: [Address::new([2; 32]), Address::zero(), Address::new([3; 32]), Address::zero()],
        friend_amounts: [SUPPLY / 10, 7, SUPPLY / 20, 0],
        deployer_amount: SUPPLY / 10,
        treasurer: Address::new([9; 32]),
        lp_percent: 75,
        seed_sol: 250_000_000,
        top_tier_mcap_sol: 1_000_000,
    }
}

fn creation(claimers: u64) -> InitializeMeme {
    InitializeMeme {
        meme_token: blank(),
        deployer: Address::new([1; 32]),
        program_id: Address::new([8; 32]),
        airdrop_claimers: claimers,
    }
}

fn refusal(change: impl FnOnce(&mut MemeConfig)) -> MemeTemplateError {
    let mut c = config();
    change(&mut c);
    let mut ctx = creation(0);
    let e = initialize_meme(&mut ctx, c, false, 50).unwrap_err();
    assert_eq!(ctx.meme_token.total_supply, 0);
    assert!(!ctx.meme_token.airdrop_enabled);
    e
}

#[test]
fn accepted_configuration_creates_the_asset() {
    let mut ctx = creation(12);
    let event = initialize_meme(&mut ctx, config(), true, 777).unwrap();
    assert_eq!(event.program_id.bytes, [8; 32]);
    assert_eq!(event.deployer_wallet.bytes, [1; 32]);
    let meme = &ctx.meme_token;
    assert_eq!(meme.total_supply, SUPPLY);
    assert_eq!(meme.name, "Seed");
    assert_eq!(meme.symbol, "SEED");
    assert_eq!(meme.created_at, 777);
    assert_eq!(meme.lp_percent, 75);
    assert_eq!(meme.friend_amounts, [SUPPLY / 10, 7, SUPPLY / 20, 0]);
    assert!(!meme.live && !meme.bonded && !meme.airdrop_triggered);
    assert!(meme.airdrop_enabled);
    assert_eq!(meme.airdrop_count, 12);
    assert_eq!((meme.vault_sol, meme.vault_tokens, meme.burned, meme.swap_count), (0, 0, 0, 0));
    assert_eq!(meme.lp_addr.map(|a| a.bytes), None);
}

#[test]
fn airdrop_needs_claimers() {
    let mut ctx = creation(0);
    assert_eq!(
        initialize_meme(&mut ctx, config(), true, 0).unwrap_err(),
        MemeTemplateError::InvalidArgument
    );
    let mut ctx = creation(0);
    assert!(initialize_meme(&mut ctx, config(), false, 0).is_ok());
    assert!(!ctx.meme_token.airdrop_enabled);
    assert_eq!(ctx.meme_token.airdrop_count, 0);
}

#[test]
fn configuration_is_examined_field_by_field() {
    assert_eq!(refusal(|c| c.total_supply = SUPPLY - 1), MemeTemplateError::InvalidSupply);
    assert_eq!(refusal(|c| c.total_supply = 1_000_000_000_000_000_001), MemeTemplateError::InvalidSupply);
    assert_eq!(refusal(|c| c.name = "x".repeat(33)), MemeTemplateError::InvalidArgument);
    assert_eq!(refusal(|c| c.name = "é".repeat(17)), MemeTemplateError::InvalidArgument);
    assert_eq!(refusal(|c| c.symbol = "x".repeat(17)), MemeTemplateError::InvalidArgument);
    assert_eq!(refusal(|c| c.description = "x".repeat(289)), MemeTemplateError::InvalidArgument);
    assert_eq!(refusal(|c| c.swap_fee_bps = 99), MemeTemplateError::InvalidArgument);
    assert_eq!(refusal(|c| c.swap_fee_bps = 1001), MemeTemplateError::InvalidArgument);
    assert_eq!(refusal(|c| c.max_buy_bps = 9), MemeTemplateError::InvalidArgument);
    assert_eq!(refusal(|c| c.max_buy_bps = 101), MemeTemplateError::InvalidArgument);
    assert_eq!(refusal(|c| c.max_sell_bps = 9), MemeTemplateError::InvalidArgument);
    assert_eq!(refusal(|c| c.max_sell_bps = 101), MemeTemplateError::InvalidArgument);
    assert_eq!(refusal(|c| c.sell_cooldown = 901), MemeTemplateError::InvalidSwapPeriod);
    assert_eq!(refusal(|c| c.burn_lp_percent = 51), MemeTemplateError::InvalidBurnPercentage);
    assert_eq!(refusal(|c| c.lp_percent = 101), MemeTemplateError::InvalidLpPercentage);
    assert_eq!(refusal(|c| c.seed_sol = 249_999_999), MemeTemplateError::InvalidVaultSeedSol);
    assert_eq!(refusal(|c| c.seed_sol = 10_000_000_001), MemeTemplateError::InvalidVaultSeedSol);
    assert_eq!(refusal(|c| c.top_tier_mcap_sol = 2_000_000), MemeTemplateError::InvalidTopTierMcap);
    assert_eq!(refusal(|c| c.deployer_amount = SUPPLY), MemeTemplateError::InvalidFriendsAllocation);
    assert_eq!(refusal(|c| c.deployer_amount = u64::MAX), MemeTemplateError::InvalidFriendsAllocation);
    assert_eq!(refusal(|c| c.lp_percent = 74), MemeTemplateError::InvalidLpPercentage);
}

#[test]
fn limits_of_the_configuration_are_accepted() {
    let mut ctx = creation(0);
    let mut c = config();
    c.name = "x".repeat(32);
    c.symbol = "y".repeat(16);
    c.description = "z".repeat(288);
    c.sell_cooldown = 86_400;
    c.burn_lp_percent = 50;
    c.top_tier_mcap_sol = 100_000_000;
    c.friend_amounts = [0; 4];
    c.deployer_amount = SUPPLY / 10_000 * 5_100;
    c.lp_percent = 49;
    assert!(initialize_meme(&mut ctx, c, false, 0).is_ok());
    assert_eq!(ctx.meme_token.lp_percent, 49);
}

fn launch_context() -> MintToVault {
    let mut ctx = creation(0);
    initialize_meme(&mut ctx, config(), false, 0).unwrap();
    MintToVault { meme_token: ctx.meme_token, mint: Address::new([6; 32]), deployer: ctx.deployer }
}

#[test]
fn launch_mints_to_the_vault_the_deployer_and_the_friends() {
    let mut ctx = launch_context();
    let plan = mint_to_vault(&mut ctx).unwrap();
    assert_eq!(plan.lp_tokens, SUPPLY / 100 * 75);
    assert_eq!(plan.burn, SUPPLY / 1000 * 75);
    assert_eq!(plan.seed_sol, 250_000_000);
    assert_eq!(plan.allocations.len(), 3);
    let mint = Address::new([6; 32]);
    let expect = [([1u8; 32], SUPPLY / 10), ([2; 32], SUPPLY / 10), ([3; 32], SUPPLY / 20)];
    for (minted, (owner, amount)) in plan.allocations.iter().zip(expect) {
        assert_eq!(minted.owner.bytes, owner);
        assert_eq!(minted.amount, amount);
        assert_eq!(minted.token_account.bytes, get_ata(&Address::new(owner), &mint).unwrap().bytes);
    }
    assert!(ctx.meme_token.live);
    assert_eq!(ctx.meme_token.burned, SUPPLY / 1000 * 75);
    assert_eq!(ctx.meme_token.vault_sol, 250_000_000);
    assert_eq!(ctx.meme_token.vault_tokens, SUPPLY / 100 * 75 - SUPPLY / 1000 * 75);
}

#[test]
fn launch_that_burns_more_than_the_vault_gets_is_an_overflow() {
    let mut ctx = launch_context();
    ctx.meme_token.burned = SUPPLY;
    assert_eq!(mint_to_vault(&mut ctx).unwrap_err(), MemeTemplateError::Overflow);
    assert!(!ctx.meme_token.live);
    assert_eq!(ctx.meme_token.burned, SUPPLY);
    let mut ctx = launch_context();
    ctx.meme_token.total_supply = u64::MAX;
    ctx.meme_token.lp_percent = 255;
    assert_eq!(mint_to_vault(&mut ctx).unwrap_err(), MemeTemplateError::Overflow);
    let mut ctx = launch_context();
    ctx.meme_token.burn_lp_percent = 101;
    assert_eq!(mint_to_vault(&mut ctx).unwrap_err(), MemeTemplateError::Overflow);
    assert_eq!(ctx.meme_token.vault_sol, 0);
}

#[test]
fn launch_without_a_burn_keeps_the_whole_pool() {
    let mut ctx = launch_context();
    ctx.meme_token.burn_lp_percent = 0;
    ctx.meme_token.friends = [Address::zero(); 4];
    let plan = mint_to_vault(&mut ctx).unwrap();
    assert_eq!(plan.burn, 0);
    assert_eq!(plan.allocations.len(), 1);
    assert_eq!(ctx.meme_token.vault_tokens, plan.lp_tokens);
}

const NOW: i64 = 10_000;

fn swap_context() -> Swap {
    let mut launched = launch_context();
    mint_to_vault(&mut launched).unwrap();
    let mut meme = launched.meme_token;
    meme.vault_sol = 50 * SOL;
    meme.vault_tokens = 500_000 * SOL;
    let vault_address = Address::new([0x22; 32]);
    Swap {
        meme_token: meme,
        user_state: UserSwapState {
            last_swap_timestamp: 0,
            last_cpi_timestamp: 0,
            cpi_count: 0,
            bump: 0,
            vault: vault_address,
        },
        user_token_amount: 1_000_000,
        airdrop_claimers: 0,
        pool_state: Address::new([0x44; 32]),
        sol_mint: Address::new([0x55; 32]),
        mothership: GlobalTaxSwap {
            global_state: GlobalState {
                is_initialized: true,
                treasury_wallet: Address::new([0x33; 32]),
                total_swapped: 300_000_000 * SOL,
                swap_count: 3,
                bond_timestamp: 0,
                bump: 1,
            },
            user: Address::new([0x11; 32]),
            vault_address,
            expected_vault: vault_address,
            vault: NonceVault::new(2),
            rewards: RewardLedger::new(0, 3),
            badge_holders: BadgeHolderTable::new(4),
            velocity: VelocityWindow::new(0, 5),
        },
    }
}

fn request(amount_in: u64, is_buy: bool, nonce: u64) -> TaxRequest {
    TaxRequest { amount_in, is_buy, min_out: 17, bls_sig: [0; 96], bls_pk: [0; 48], nonce }
}

const IDLE: ExchangeOutcome = ExchangeOutcome::Rejected;

#[test]
fn buy_before_bonding_goes_through_the_internal_leg() {
    let mut ctx = swap_context();
    let outcome = swap_checked(&mut ctx, &request(10 * SOL, true, 0), true, NOW, 1, IDLE).unwrap();
    let plan = outcome.plan;
    assert_eq!(plan.global_tax, SOL / 10);
    assert_eq!(plan.local_tax, SOL / 10);
    assert_eq!(plan.lp_amount, 10 * SOL - SOL / 5);
    let tokens = ((plan.lp_amount as u128) * (500_000 * SOL as u128) / (50 * SOL as u128)) as u64;
    match plan.leg {
        ExchangeLeg::CurveBuy { paid, tokens_out } => {
            assert_eq!(paid, plan.lp_amount);
            assert_eq!(tokens_out, tokens);
            assert_eq!(tokens_out, 98_000 * SOL);
        }
        _ => panic!("a buy before bonding takes the internal leg"),
    }
    assert_eq!(plan.treasury_account.unwrap().bytes, get_ata(&Address::new([9; 32]), &ctx.sol_mint).unwrap().bytes);
    assert!(!plan.create_pool);
    assert!(!plan.trigger_airdrop);
    assert_eq!(outcome.received, None);
    assert_eq!(outcome.tax.split.total_tax, 10 * SOL / 40);
    assert_eq!(ctx.meme_token.vault_sol, 50 * SOL + plan.lp_amount);
    assert_eq!(ctx.meme_token.vault_tokens, 500_000 * SOL - tokens);
    assert_eq!(ctx.meme_token.swap_count, 1);
    assert!(!ctx.meme_token.bonded);
    assert_eq!(ctx.user_state.last_swap_timestamp, NOW);
    assert_eq!(ctx.mothership.vault.nonce, 1);
    assert_eq!(ctx.mothership.rewards.swap_count(), 1);
}

#[test]
fn sell_before_bonding_returns_base_from_the_vault() {
    let mut ctx = swap_context();
    ctx.user_token_amount = 10_000_000 * SOL;
    let amount = 1_000 * SOL;
    let outcome = swap_checked(&mut ctx, &request(amount, false, 0), true, NOW, 1, IDLE).unwrap();
    let lp = amount - amount / 100 - amount / 100;
    assert_eq!(outcome.plan.lp_amount, lp);
    let base = ((lp as u128) * (50 * SOL as u128) / (500_000 * SOL as u128)) as u64;
    match outcome.plan.leg {
        ExchangeLeg::CurveSell { tokens_in, base_out } => {
            assert_eq!(tokens_in, lp);
            assert_eq!(base_out, base);
            assert_eq!(base_out, 98_000_000);
        }
        _ => panic!("a sell before bonding takes the internal leg"),
    }
    assert_eq!(ctx.meme_token.vault_sol, 50 * SOL - base);
    assert_eq!(ctx.meme_token.vault_tokens, 500_000 * SOL + lp);
}

#[test]
fn reaching_the_threshold_bonds_the_asset_once() {
    let mut ctx = swap_context();
    ctx.meme_token.vault_sol = BOND_THRESHOLD_SOL - 98 * SOL / 10;
    ctx.meme_token.vault_tokens = 1_000_000 * SOL;
    let outcome = swap_checked(&mut ctx, &request(10 * SOL, true, 0), true, NOW, 1, IDLE).unwrap();
    assert!(outcome.plan.create_pool);
    assert!(ctx.meme_token.bonded);
    assert_eq!(ctx.meme_token.vault_sol, BOND_THRESHOLD_SOL);
    assert_eq!(ctx.meme_token.lp_addr.unwrap().bytes, [0x44; 32]);
    let reserves = (ctx.meme_token.vault_sol, ctx.meme_token.vault_tokens);
    let next = swap_checked(
        &mut ctx,
        &request(10 * SOL, true, 1),
        true,
        NOW,
        2,
        ExchangeOutcome::Filled { received: 5 },
    )
    .unwrap();
    assert!(!next.plan.create_pool);
    assert_eq!(next.received, Some(5));
    match next.plan.leg {
        ExchangeLeg::Amm { order } => {
            assert_eq!(order.source_amount, 10 * SOL - SOL / 5);
            assert_eq!(order.minimum_out, 17);
            assert!(order.is_buy);
        }
        _ => panic!("a bonded asset trades through the pool"),
    }
    assert_eq!((ctx.meme_token.vault_sol, ctx.meme_token.vault_tokens), reserves);
    assert_eq!(ctx.meme_token.swap_count, 2);
}

#[test]
fn just_under_the_threshold_does_not_bond() {
    let mut ctx = swap_context();
    ctx.meme_token.vault_sol = BOND_THRESHOLD_SOL - 98 * SOL / 10 - 1;
    ctx.meme_token.vault_tokens = 1_000_000 * SOL;
    let outcome = swap_checked(&mut ctx, &request(10 * SOL, true, 0), true, NOW, 1, IDLE).unwrap();
    assert!(!outcome.plan.create_pool);
    assert!(!ctx.meme_token.bonded);
    assert!(ctx.meme_token.lp_addr.is_none());
}

#[test]
fn pool_that_turns_the_order_down_changes_nothing() {
    let mut ctx = swap_context();
    ctx.meme_token.bonded = true;
    let r = swap_checked(&mut ctx, &request(10 * SOL, true, 0), true, NOW, 1, ExchangeOutcome::Rejected);
    assert_eq!(r.unwrap_err(), SwapFailure::ExchangeRejected);
    assert_eq!(ctx.meme_token.swap_count, 0);
    assert_eq!(ctx.user_state.last_swap_timestamp, 0);
    assert_eq!(ctx.mothership.vault.nonce, 0);
    assert_eq!(ctx.mothership.rewards.swap_count(), 0);
    let plan = quote_swap_checked(&ctx, &request(10 * SOL, true, 0), true, NOW, 1).unwrap();
    assert!(matches!(plan.leg, ExchangeLeg::Amm { .. }));
}

#[test]
fn airdrop_starts_once_the_registry_is_long_enough() {
    let mut ctx = swap_context();
    ctx.meme_token.airdrop_enabled = true;
    ctx.airdrop_claimers = 999;
    let outcome = swap_checked(&mut ctx, &request(SOL, true, 0), true, NOW, 1, IDLE).unwrap();
    assert!(!outcome.plan.trigger_airdrop);
    ctx.airdrop_claimers = 1_000;
    let outcome = swap_checked(&mut ctx, &request(SOL, true, 1), true, NOW, 2, IDLE).unwrap();
    assert!(outcome.plan.trigger_airdrop);
    assert!(ctx.meme_token.airdrop_triggered);
    let outcome = swap_checked(&mut ctx, &request(SOL, true, 2), true, NOW, 3, IDLE).unwrap();
    assert!(!outcome.plan.trigger_airdrop);
    assert!(ctx.meme_token.airdrop_triggered);
}

fn template(e: MemeTemplateError) -> SwapFailure {
    SwapFailure::Template(e)
}

#[test]
fn assets_gates_are_passed_in_order() {
    let sell = request(SOL, false, 0);
    let mut ctx = swap_context();
    ctx.meme_token.live = false;
    ctx.meme_token.created_at = NOW - 119;
    ctx.user_state.last_swap_timestamp = NOW - 899;
    ctx.user_token_amount = 1;
    let mut failure = |ctx: &mut Swap| swap_checked(ctx, &sell, true, NOW, 1, IDLE).map(|_| ()).unwrap_err();
    assert_eq!(failure(&mut ctx), template(MemeTemplateError::NotLive));
    ctx.meme_token.live = true;
    assert_eq!(failure(&mut ctx), template(MemeTemplateError::AntiSniperCooldown));
    ctx.meme_token.created_at = NOW - 120;
    assert_eq!(failure(&mut ctx), template(MemeTemplateError::InvalidArgument));
    ctx.user_state.last_swap_timestamp = NOW - 900;
    assert_eq!(failure(&mut ctx), template(MemeTemplateError::ExceedsFibSell));
    ctx.user_token_amount = u64::MAX;
    ctx.mothership.vault.nonce = 4;
    assert_eq!(failure(&mut ctx), SwapFailure::Coordinator(SafePumpError::ReplayRejected));
    ctx.mothership.vault.nonce = 0;
    ctx.meme_token.swap_count = u64::MAX;
    assert_eq!(failure(&mut ctx), template(MemeTemplateError::Overflow));
    ctx.meme_token.swap_count = 0;
    assert!(swap_checked(&mut ctx, &sell, true, NOW, 1, IDLE).is_ok());
}

#[test]
fn per_swap_cap_is_the_lesser_of_the_tiers_and_the_assets_rate() {
    let mut ctx = swap_context();
    ctx.meme_token.vault_tokens = 500 * SOL;
    // valuation: 50 whole units times the supply over 500 whole units of tokens,
    // which is 100_000 whole units, the lowest rung: 2 bps
    let cap = SUPPLY / 10_000 * 2;
    assert_eq!(
        swap_checked(&mut ctx, &request(cap + 1, true, 0), true, NOW, 1, IDLE).unwrap_err(),
        template(MemeTemplateError::ExceedsFibBuy)
    );
    ctx.meme_token.vault_sol = 49 * SOL;
    // under every threshold the lowest rung's rate applies still: 2 bps
    assert_eq!(
        quote_swap_checked(&ctx, &request(cap + 1, true, 0), true, NOW, 1).unwrap_err(),
        template(MemeTemplateError::ExceedsFibBuy)
    );
    ctx.meme_token.vault_sol = 250 * SOL;
    // at 500_000 whole units the second rung is reached: 3 bps
    let cap = SUPPLY / 10_000 * 3;
    assert_eq!(
        quote_swap_checked(&ctx, &request(cap + 1, true, 0), true, NOW, 1).unwrap_err(),
        template(MemeTemplateError::ExceedsFibBuy)
    );
    ctx.meme_token.max_buy_bps = 1;
    let cap = SUPPLY / 10_000;
    assert_eq!(
        quote_swap_checked(&ctx, &request(cap + 1, true, 0), true, NOW, 1).unwrap_err(),
        template(MemeTemplateError::ExceedsFibBuy)
    );
    ctx.user_token_amount = 20_000;
    ctx.user_state.last_swap_timestamp = 0;
    assert_eq!(
        quote_swap_checked(&ctx, &request(7, false, 0), true, NOW, 1).unwrap_err(),
        template(MemeTemplateError::ExceedsFibSell)
    );
    assert!(quote_swap_checked(&ctx, &request(6, false, 0), true, NOW, 1).is_ok());
}

#[test]
fn coordinator_is_consulted_before_the_exchange_leg() {
    let mut ctx = swap_context();
    ctx.meme_token.bonded = true;
    ctx.mothership.global_state.total_swapped = 0;
    let r = swap_checked(&mut ctx, &request(2 * SOL, true, 0), true, NOW, 1, ExchangeOutcome::Rejected);
    assert_eq!(r.unwrap_err(), SwapFailure::Coordinator(SafePumpError::VelocityExceeded));
    let r = swap_checked(&mut ctx, &request(SOL, true, 0), false, NOW, 1, ExchangeOutcome::Rejected);
    assert_eq!(r.unwrap_err(), SwapFailure::Coordinator(SafePumpError::InvalidSignature));
}

#[test]
fn internal_leg_that_would_overdraw_a_reserve_is_an_overflow() {
    let mut ctx = swap_context();
    ctx.meme_token.vault_sol = 1;
    ctx.meme_token.vault_tokens = 10;
    ctx.meme_token.total_supply = u64::MAX;
    let r = swap_checked(&mut ctx, &request(1_000, true, 0), true, NOW, 1, IDLE);
    assert_eq!(r.unwrap_err(), template(MemeTemplateError::Overflow));
    assert_eq!(ctx.meme_token.vault_tokens, 10);
    ctx.meme_token.vault_sol = 0;
    let outcome = swap_checked(&mut ctx, &request(1_000, true, 0), true, NOW, 1, IDLE).unwrap();
    assert!(matches!(outcome.plan.leg, ExchangeLeg::CurveBuy { tokens_out: 0, .. }));
    assert_eq!(ctx.meme_token.vault_sol, 980);
    assert_eq!(ctx.meme_token.vault_tokens, 10);
}

#[test]
fn free_asset_names_no_treasury_account() {
    let mut ctx = swap_context();
    ctx.meme_token.swap_fee_bps = 0;
    let outcome = swap_checked(&mut ctx, &request(10 * SOL, true, 0), true, NOW, 1, IDLE).unwrap();
    assert_eq!(outcome.plan.local_tax, 0);
    assert!(outcome.plan.treasury_account.is_none());
    assert_eq!(outcome.plan.lp_amount, 10 * SOL - SOL / 10);
    let mut ctx = swap_context();
    ctx.meme_token.swap_fee_bps = 9_901;
    assert_eq!(
        swap_checked(&mut ctx, &request(10 * SOL, true, 0), true, NOW, 1, IDLE).unwrap_err(),
        template(MemeTemplateError::Overflow)
    );
}

#[test]
fn signed_request_is_carried_through() {
    let mut ctx = swap_context();
    let sk = Scalar::from(424_242u64);
    let generator = Option::<G1Affine>::from(G1Affine::from_compressed(&G1_GENERATOR)).unwrap();
    let pk = (&G1Projective::from(generator) * &sk).to_compressed();
    let fields = SwapRequest { amount: SOL, is_buy: true, min_out: 17, nonce: 0, user: ctx.mothership.user };
    let msg = encode_message(&fields);
    let sig = (&G2Projective::hash_to_curve(&msg, b"SAFE-PUMP-V5", &[]) * &sk).to_compressed();
    let mut signed = request(SOL, true, 0);
    signed.bls_sig = sig;
    signed.bls_pk = pk;
    let unsigned = request(SOL, true, 0);
    assert_eq!(
        swap(&mut ctx, &unsigned, NOW, 1, IDLE).unwrap_err(),
        SwapFailure::Coordinator(SafePumpError::InvalidSignature)
    );
    assert!(quote_swap(&ctx, &signed, NOW, 1).is_ok());
    assert!(swap(&mut ctx, &signed, NOW, 1, IDLE).is_ok());
    assert_eq!(ctx.mothership.vault.nonce, 1);
    assert_eq!(
        swap(&mut ctx, &signed, NOW, 1, IDLE).unwrap_err(),
        SwapFailure::Coordinator(SafePumpError::ReplayRejected)
    );
}

#[test]
fn outcome_carries_the_coordinators_answer() {
    let mut ctx = swap_context();
    let outcome = swap_checked(&mut ctx, &request(10_000, true, 0), true, NOW, 1, IDLE).unwrap();
    assert_eq!(outcome.tax.split.total_tax, 250);
    assert_eq!(outcome.tax.split.net_amount, 9_750);
    assert_eq!(outcome.tax.split.allocations, [100, 80, 20, 50]);
    assert_eq!(outcome.tax.transfers.len(), 2);
    assert_eq!((outcome.tax.transfers[0].pool, outcome.tax.transfers[0].amount), (Pool::Liquidity, 100));
    assert_eq!((outcome.tax.transfers[1].pool, outcome.tax.transfers[1].amount), (Pool::Treasury, 50));
    assert_eq!(outcome.tax.collected.amount_in, 10_000);
    assert_eq!(outcome.tax.collected.total_tax, 250);
    assert_eq!(outcome.tax.collected.user.bytes, [0x11; 32]);
    assert!(outcome.tax.collected.is_buy);
    assert_eq!(outcome.received, None);
    assert_eq!(outcome.plan.global_tax, 100);
    assert_eq!(outcome.plan.local_tax, 100);
    assert_eq!(outcome.plan.lp_amount, 9_800);
}
