use safe_pump::admission::{
    admit_swap, check_anti_snipe, check_sell_cooldown, swap_cap, Tier, VelocityWindow,
};
use safe_pump::error::SafePumpError;
use safe_pump::tier::{tier_index, velocity_cap, FIB_MCAP_THRESHOLDS_LAMPORTS};

const SOL: u64 = 1_000_000_000;

#[test]
fn second_buy_in_a_block_passes_the_lowest_tiers_cap() {
    assert_eq!(tier_index(0, &FIB_MCAP_THRESHOLDS_LAMPORTS), 0);
    let cap = velocity_cap(0);
    assert_eq!(cap, SOL);
    let mut window = VelocityWindow::new(7, 0);
    assert_eq!(window.record(7, SOL / 2, true, cap), Ok(()));
    assert_eq!(window.total_bought_sol, 500_000_000);
    assert_eq!(window.record(7, 600_000_000, true, cap), Err(SafePumpError::VelocityExceeded));
    assert_eq!(window.total_bought_sol, 500_000_000);
    assert_eq!(window.block_slot, 7);
}

#[test]
fn first_buy_of_a_new_block_starts_from_nothing() {
    let mut window = VelocityWindow { total_bought_sol: 900_000_000, block_slot: 7, bump: 3 };
    assert_eq!(window.record(8, 600_000_000, true, SOL), Ok(()));
    assert_eq!(window.total_bought_sol, 600_000_000);
    assert_eq!(window.block_slot, 8);
    assert_eq!(window.bump, 3);
}

#[test]
fn buy_up_to_the_cap_is_let_through() {
    let mut window = VelocityWindow::new(1, 0);
    assert_eq!(window.record(1, SOL, true, SOL), Ok(()));
    assert_eq!(window.record(1, 1, true, SOL), Err(SafePumpError::VelocityExceeded));
    assert_eq!(window.total_bought_sol, SOL);
}

#[test]
fn sells_are_not_counted() {
    let mut window = VelocityWindow { total_bought_sol: SOL, block_slot: 4, bump: 0 };
    assert_eq!(window.record(4, 50 * SOL, false, SOL), Ok(()));
    assert_eq!(window.total_bought_sol, SOL);
    assert_eq!(window.record(5, 50 * SOL, false, SOL), Ok(()));
    assert_eq!(window.total_bought_sol, 0);
    assert_eq!(window.block_slot, 5);
}

#[test]
fn sum_that_leaves_the_range_is_an_overflow() {
    let mut window = VelocityWindow { total_bought_sol: u64::MAX - 1, block_slot: 4, bump: 0 };
    assert_eq!(window.record(4, 2, true, u64::MAX), Err(SafePumpError::Overflow));
    assert_eq!(window.total_bought_sol, u64::MAX - 1);
    assert_eq!(window.record(4, 1, true, u64::MAX), Ok(()));
    assert_eq!(window.total_bought_sol, u64::MAX);
}

#[test]
fn rolling_empties_a_window_of_another_block_only() {
    let mut window = VelocityWindow { total_bought_sol: 5, block_slot: 4, bump: 9 };
    window.roll(4);
    assert_eq!((window.total_bought_sol, window.block_slot, window.bump), (5, 4, 9));
    window.roll(6);
    assert_eq!((window.total_bought_sol, window.block_slot, window.bump), (0, 6, 9));
}

#[test]
fn per_swap_cap_is_the_lesser_rate_of_the_base() {
    assert_eq!(swap_cap(1_000_000, 35, 100), 3_500);
    assert_eq!(swap_cap(1_000_000, 100, 10), 1_000);
    assert_eq!(swap_cap(999, 35, 100), 3);
    assert_eq!(swap_cap(u64::MAX, 10_000, 10_000), u64::MAX as u128);
}

#[test]
fn buy_over_the_per_swap_cap_is_refused() {
    let tier = Tier { velocity_cap: 100 * SOL, swap_bps_cap: 35 };
    let mut window = VelocityWindow::new(1, 0);
    assert_eq!(
        admit_swap(&mut window, 1, &tier, 100, 1_000_000, 3_501, true),
        Err(SafePumpError::BuyCapExceeded)
    );
    assert_eq!(window.total_bought_sol, 0);
    assert_eq!(admit_swap(&mut window, 1, &tier, 100, 1_000_000, 3_500, true), Ok(()));
    assert_eq!(window.total_bought_sol, 3_500);
}

#[test]
fn sell_over_the_per_swap_cap_is_refused() {
    let tier = Tier { velocity_cap: SOL, swap_bps_cap: 100 };
    let mut window = VelocityWindow::new(1, 0);
    assert_eq!(
        admit_swap(&mut window, 2, &tier, 50, 10_000, 51, false),
        Err(SafePumpError::SellCapExceeded)
    );
    assert_eq!(window.block_slot, 1);
    assert_eq!(admit_swap(&mut window, 2, &tier, 50, 10_000, 50, false), Ok(()));
    assert_eq!(window.block_slot, 2);
    assert_eq!(window.total_bought_sol, 0);
}

#[test]
fn velocity_is_examined_before_the_per_swap_cap() {
    let tier = Tier { velocity_cap: 10, swap_bps_cap: 1 };
    let mut window = VelocityWindow::new(1, 0);
    assert_eq!(
        admit_swap(&mut window, 1, &tier, 1, 10_000, 11, true),
        Err(SafePumpError::VelocityExceeded)
    );
    assert_eq!(
        admit_swap(&mut window, 1, &tier, 1, 10_000, 2, true),
        Err(SafePumpError::BuyCapExceeded)
    );
}

#[test]
fn first_swap_waits_for_the_launch_cooldown() {
    assert_eq!(check_anti_snipe(0, 1_000, 1_119), Err(SafePumpError::AntiSnipeCooldown));
    assert_eq!(check_anti_snipe(0, 1_000, 1_120), Ok(()));
    assert_eq!(check_anti_snipe(1, 1_000, 1_001), Ok(()));
    assert_eq!(check_anti_snipe(0, i64::MAX, i64::MIN), Err(SafePumpError::AntiSnipeCooldown));
    assert_eq!(check_anti_snipe(0, i64::MIN, i64::MAX), Ok(()));
}

#[test]
fn sells_wait_for_the_cooldown_and_buys_do_not() {
    assert_eq!(check_sell_cooldown(1_000, 87_399, false), Err(SafePumpError::CooldownNotElapsed));
    assert_eq!(check_sell_cooldown(1_000, 87_400, false), Ok(()));
    assert_eq!(check_sell_cooldown(1_000, 1_000, true), Ok(()));
    assert_eq!(check_sell_cooldown(i64::MIN, i64::MAX, false), Ok(()));
}
