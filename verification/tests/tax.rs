use safe_pump::error::SafePumpError;
use safe_pump::tax::{apply_global_tax, apply_tax};

#[test]
fn splits_the_protocol_tax_without_loss() {
    let split = apply_tax(10_000, 250, &[100, 80, 20, 50]).unwrap();
    assert_eq!(split.total_tax, 250);
    assert_eq!(split.allocations, [100, 80, 20, 50]);
    assert_eq!(split.allocations.iter().sum::<u64>(), 250);
    assert_eq!(split.net_amount, 9_750);
}

#[test]
fn net_and_tax_add_up_for_large_amounts() {
    let split = apply_global_tax(u64::MAX);
    assert_eq!(split.total_tax, ((u64::MAX as u128) * 250 / 10_000) as u64);
    assert_eq!(split.net_amount as u128 + split.total_tax as u128, u64::MAX as u128);
}

#[test]
fn shares_round_down_and_leave_a_residue() {
    let split = apply_tax(399, 250, &[100, 80, 20, 50]).unwrap();
    assert_eq!(split.total_tax, 9);
    assert_eq!(split.allocations, [3, 2, 0, 1]);
    assert_eq!(split.net_amount, 390);
}

#[test]
fn zero_rate_gives_no_tax() {
    let split = apply_tax(1_000, 0, &[1, 2, 3, 4]).unwrap();
    assert_eq!(split.total_tax, 0);
    assert_eq!(split.allocations, [0, 0, 0, 0]);
    assert_eq!(split.net_amount, 1_000);
}

#[test]
fn tax_over_the_amount_is_an_overflow() {
    assert!(matches!(apply_tax(1_000, 20_000, &[0, 0, 0, 0]), Err(SafePumpError::Overflow)));
}
