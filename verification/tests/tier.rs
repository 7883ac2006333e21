use safe_pump::seed_coin::get_fib_tier;
use safe_pump::tier::{
    current_valuation, tier_index, velocity_cap, FIB_MCAP_THRESHOLDS_LAMPORTS, FIB_VELOCITY_SOL,
    LAMPORTS_PER_SOL,
};

const SOL: u64 = 1_000_000_000;

#[test]
fn valuation_is_quote_times_supply_over_base() {
    assert_eq!(current_valuation(500, 1_000, 250), 2_000);
    assert_eq!(current_valuation(7, 10, 3), 23);
}

#[test]
fn valuation_of_an_empty_base_reserve_is_zero() {
    assert_eq!(current_valuation(500, 1_000, 0), 0);
    assert_eq!(current_valuation(u64::MAX, u64::MAX, 0), 0);
}

#[test]
fn valuation_multiplies_without_loss() {
    assert_eq!(current_valuation(u64::MAX, u64::MAX, u64::MAX), u64::MAX);
    assert_eq!(current_valuation(1 << 40, 1 << 40, 1 << 20), 1 << 60);
}

#[test]
fn valuation_keeps_the_low_64_bits() {
    let wide = ((1u128 << 63) * 4) / 1;
    assert_eq!(current_valuation(1 << 63, 4, 1), (wide % (1u128 << 64)) as u64);
    assert_eq!(current_valuation(1 << 63, 5, 2), ((1u128 << 63) * 5 / 2 % (1u128 << 64)) as u64);
}

#[test]
fn tier_of_a_valuation_under_every_threshold_is_the_lowest() {
    assert_eq!(tier_index(0, &FIB_MCAP_THRESHOLDS_LAMPORTS), 0);
    assert_eq!(tier_index(0, &[1, 3, 7, 15, 30, 70, 150, 300]), 0);
}

#[test]
fn tier_is_the_highest_rung_reached() {
    let ladder = [1, 3, 7, 15, 30, 70, 150, 300];
    assert_eq!(tier_index(1, &ladder), 0);
    assert_eq!(tier_index(2, &ladder), 0);
    assert_eq!(tier_index(3, &ladder), 1);
    assert_eq!(tier_index(14, &ladder), 2);
    assert_eq!(tier_index(15, &ladder), 3);
    assert_eq!(tier_index(299, &ladder), 6);
    assert_eq!(tier_index(300, &ladder), 7);
}

#[test]
fn tier_of_a_valuation_over_every_threshold_is_the_last() {
    assert_eq!(tier_index(u64::MAX, &FIB_MCAP_THRESHOLDS_LAMPORTS), 7);
    assert_eq!(tier_index(301, &[1, 3, 7, 15, 30, 70, 150, 300]), 7);
}

#[test]
fn tier_never_falls_when_the_valuation_rises() {
    let ladder = [1, 3, 7, 15, 30, 70, 150, 300];
    let mut last = 0;
    for valuation in 0..400u64 {
        let tier = tier_index(valuation, &ladder);
        assert!(tier >= last);
        last = tier;
    }
    assert_eq!(last, 7);
}

#[test]
fn tier_on_an_unordered_ladder_is_still_the_highest_rung_reached() {
    assert_eq!(tier_index(5, &[9, 4, 8, 2, 7, 9, 9, 9]), 3);
    assert_eq!(tier_index(1, &[9, 4, 8, 2, 7, 9, 9, 9]), 0);
}

#[test]
fn velocity_cap_follows_the_tier() {
    assert_eq!(velocity_cap(0), SOL);
    assert_eq!(velocity_cap(1_000_000 * SOL - 1), SOL);
    assert_eq!(velocity_cap(1_000_000 * SOL), SOL);
    assert_eq!(velocity_cap(3_000_000 * SOL), 3 * SOL);
    assert_eq!(velocity_cap(299_999_999 * SOL), 150 * SOL);
    assert_eq!(velocity_cap(300_000_000 * SOL), 300 * SOL);
    assert_eq!(velocity_cap(u64::MAX), 300 * SOL);
    assert_eq!(FIB_VELOCITY_SOL[7] * LAMPORTS_PER_SOL, 300 * SOL);
}

#[test]
fn rate_ladder_takes_the_highest_rung_reached_or_the_lowest() {
    assert_eq!(get_fib_tier(0, 1_000_000), 2);
    assert_eq!(get_fib_tier(100_000 * SOL - 1, 1_000_000), 2);
    assert_eq!(get_fib_tier(100_000 * SOL, 1_000_000), 2);
    assert_eq!(get_fib_tier(900_000 * SOL, 1_000_000), 3);
    assert_eq!(get_fib_tier(100_000 * SOL - 1, 100_000_000), 2);
    assert_eq!(get_fib_tier(100_000 * SOL, 100_000_000), 2);
    assert_eq!(get_fib_tier(500_000 * SOL - 1, 100_000_000), 2);
    assert_eq!(get_fib_tier(500_000 * SOL, 100_000_000), 3);
    assert_eq!(get_fib_tier(1_000_000 * SOL, 100_000_000), 4);
    assert_eq!(get_fib_tier(5_000_000 * SOL, 100_000_000), 6);
    assert_eq!(get_fib_tier(10_000_000 * SOL, 100_000_000), 9);
    assert_eq!(get_fib_tier(25_000_000 * SOL, 100_000_000), 14);
    assert_eq!(get_fib_tier(50_000_000 * SOL, 100_000_000), 22);
    assert_eq!(get_fib_tier(75_000_000 * SOL - 1, 100_000_000), 22);
    assert_eq!(get_fib_tier(75_000_000 * SOL, 100_000_000), 35);
    assert_eq!(get_fib_tier(100_000_000 * SOL - 1, 100_000_000), 35);
}

#[test]
fn rate_never_falls_when_the_valuation_rises() {
    for top in [1_000_000u64, 5_000_000, 10_000_000, 50_000_000, 100_000_000] {
        let mut last = 0;
        for step in 0..=2_400u64 {
            let rate = get_fib_tier(step * 50_000 * SOL, top);
            assert!(rate >= last);
            last = rate;
        }
        assert_eq!(last, 100);
    }
}

#[test]
fn rate_ladder_gives_the_top_rate_from_the_top_tier_on() {
    assert_eq!(get_fib_tier(1_000_000 * SOL, 1_000_000), 100);
    assert_eq!(get_fib_tier(u64::MAX, 5_000_000), 100);
    assert_eq!(get_fib_tier(1_000_000 * SOL - 1, 1_000_000), 3);
    assert_eq!(get_fib_tier(4_999_999 * SOL, 5_000_000), 4);
    assert_eq!(get_fib_tier(0, 0), 100);
    assert_eq!(get_fib_tier(u64::MAX, u64::MAX), 35);
}
