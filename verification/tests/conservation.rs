//! Conservation at production scale and on edge cases.

use percolator_stake::math::{calc_collateral_for_withdraw, calc_lp_for_deposit};

#[test]
fn test_production_scale_conservation() {
    // Simulate a real pool: 10M USDC total, 1M LP tokens
    let supply = 1_000_000_000_000u64; // 1M LP (6 decimals)
    let pv = 10_000_000_000_000u64;    // 10M USDC (6 decimals)

    // User deposits 50K USDC
    let deposit = 50_000_000_000u64;
    let lp = calc_lp_for_deposit(supply, pv, deposit).unwrap();
    assert_eq!(lp, 5_000_000_000); // 5K LP

    // Withdraw immediately
    let back = calc_collateral_for_withdraw(supply + lp, pv + deposit, lp).unwrap();
    assert!(back <= deposit);
    assert_eq!(back, deposit); // exact at clean ratios
}

#[test]
fn test_dust_deposit_gets_zero_lp() {
    // Pool with 1B LP and 1B value — depositing 0 should return 0
    let lp = calc_lp_for_deposit(1_000_000_000, 1_000_000_001, 1).unwrap();
    // 1 * 1B / (1B+1) = 0 (rounds down)
    assert_eq!(lp, 0);
}

#[test]
fn test_whale_deposit_conservation() {
    // Whale deposits the same as entire pool
    let supply = 100u64;
    let pv = 100u64;
    let deposit = 100u64;

    let lp = calc_lp_for_deposit(supply, pv, deposit).unwrap();
    assert_eq!(lp, 100); // 100 * 100 / 100

    let back = calc_collateral_for_withdraw(200, 200, 100).unwrap();
    assert_eq!(back, 100);
}

#[test]
fn test_three_depositors_sequential_conservation() {
    // A=100, B=200, C=50
    let a_lp = calc_lp_for_deposit(0, 0, 100).unwrap();
    assert_eq!(a_lp, 100);

    let b_lp = calc_lp_for_deposit(100, 100, 200).unwrap();
    assert_eq!(b_lp, 200);

    let c_lp = calc_lp_for_deposit(300, 300, 50).unwrap();
    assert_eq!(c_lp, 50);

    // All withdraw in reverse order
    let c_back = calc_collateral_for_withdraw(350, 350, 50).unwrap();
    let b_back = calc_collateral_for_withdraw(300, 300, 200).unwrap();
    let a_back = calc_collateral_for_withdraw(100, 100, 100).unwrap();

    assert_eq!(c_back + b_back + a_back, 350);
    assert!(c_back + b_back + a_back <= 100 + 200 + 50);
}
