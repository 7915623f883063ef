//! The 32-bit share math and policy gates on concrete values, and against
//! their 64-bit counterparts.

use percolator_stake::math::{
    calc_collateral_for_withdraw as wide_collateral, calc_lp_for_deposit as wide_lp,
    flush_available as wide_flush_available, pool_value_with_flush as wide_pool_value_with_flush,
};
use percolator_stake::narrow::{
    calc_collateral_for_withdraw, calc_lp_for_deposit, cooldown_elapsed, exceeds_cap,
    flush_available, pool_value, pool_value_with_flush,
};

#[test]
fn test_narrow_first_depositor_exact() {
    for amount in [1u32, 2, 99, 1_000_000, u32::MAX] {
        let lp = calc_lp_for_deposit(0, 0, amount).unwrap();
        assert_eq!(lp, amount);
        let back = calc_collateral_for_withdraw(lp, amount, lp).unwrap();
        assert_eq!(back, amount);
    }
}

#[test]
fn test_narrow_blocked_states() {
    assert_eq!(calc_lp_for_deposit(0, 7, 5), None);
    assert_eq!(calc_lp_for_deposit(7, 0, 5), None);
    assert_eq!(calc_lp_for_deposit(0, 0, 5), Some(5));
    assert_eq!(calc_collateral_for_withdraw(0, 100, 10), None);
}

#[test]
fn test_narrow_pro_rata_and_rounding() {
    assert_eq!(calc_lp_for_deposit(3, 10, 7), Some(2));
    assert_eq!(calc_collateral_for_withdraw(5, 17, 2), Some(6));
    assert_eq!(calc_collateral_for_withdraw(7, 10, 3), Some(4));
    assert_eq!(calc_lp_for_deposit(100, 200, 0), Some(0));
    assert_eq!(calc_collateral_for_withdraw(100, 200, 0), Some(0));
}

#[test]
fn test_narrow_overflow_guard() {
    // 2^32-1 tokens at a value of 1 each: the quotient leaves 32 bits
    assert_eq!(calc_lp_for_deposit(u32::MAX, 1, 2), None);
    assert_eq!(calc_lp_for_deposit(u32::MAX, u32::MAX, u32::MAX), Some(u32::MAX));
    assert_eq!(calc_collateral_for_withdraw(1, u32::MAX, 2), None);
    assert_eq!(calc_collateral_for_withdraw(u32::MAX, u32::MAX, u32::MAX), Some(u32::MAX));
}

#[test]
fn test_narrow_agrees_with_wide() {
    let samples = [0u32, 1, 2, 3, 7, 10, 17, 99, 100, 65_535, 65_536, 1 << 31, u32::MAX];
    for &s in samples.iter() {
        for &v in samples.iter() {
            for &x in samples.iter() {
                if let Some(lp) = calc_lp_for_deposit(s, v, x) {
                    assert_eq!(wide_lp(s as u64, v as u64, x as u64), Some(lp as u64));
                }
                if let Some(c) = calc_collateral_for_withdraw(s, v, x) {
                    assert_eq!(wide_collateral(s as u64, v as u64, x as u64), Some(c as u64));
                }
                assert_eq!(
                    flush_available(s, v, x) as u64,
                    wide_flush_available(s as u64, v as u64, x as u64)
                );
                if let Some(p) = pool_value_with_flush(s, v, x, x) {
                    assert_eq!(
                        wide_pool_value_with_flush(s as u64, v as u64, x as u64, x as u64),
                        Some(p as u64)
                    );
                }
            }
        }
    }
}

#[test]
fn test_narrow_pool_value() {
    assert_eq!(pool_value(1000, 300), Some(700));
    assert_eq!(pool_value(100, 100), Some(0));
    assert_eq!(pool_value(100, 200), None);
    assert_eq!(pool_value_with_flush(1000, 300, 500, 200), Some(400));
    assert_eq!(pool_value_with_flush(1000, 0, 1001, 0), None);
    assert_eq!(pool_value_with_flush(100, 200, 0, 500), None);
    assert_eq!(pool_value_with_flush(u32::MAX, 0, 0, 1), None);
    // flush and full return: back to deposited - withdrawn
    assert_eq!(pool_value_with_flush(90, 20, 30, 0), Some(40));
    assert_eq!(pool_value_with_flush(90, 20, 30, 30), pool_value(90, 20));
}

#[test]
fn test_narrow_flush_available() {
    assert_eq!(flush_available(1000, 200, 300), 500);
    assert_eq!(flush_available(100, 200, 0), 0);
    assert_eq!(flush_available(1000, 200, 800), 0);
    assert_eq!(flush_available(1000, 200, 900), 0);
    // after the most that can be flushed nothing is left
    let avail = flush_available(80, 30, 10);
    assert_eq!(avail, 40);
    assert_eq!(flush_available(80, 30, 10 + avail), 0);
}

#[test]
fn test_narrow_cooldown() {
    assert!(!cooldown_elapsed(100, 100, 1));
    assert!(cooldown_elapsed(150, 100, 50));
    assert!(!cooldown_elapsed(149, 100, 50));
    assert!(!cooldown_elapsed(3, u32::MAX, 5));
    assert!(cooldown_elapsed(u32::MAX, u32::MAX, 5));
}

#[test]
fn test_narrow_cap() {
    assert!(!exceeds_cap(u32::MAX, u32::MAX, 0));
    assert!(!exceeds_cap(60, 40, 100));
    assert!(exceeds_cap(60, 41, 100));
    assert!(exceeds_cap(u32::MAX, 1, 7));
}
