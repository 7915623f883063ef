//! Ledger updates: each completes or leaves the ledger as it was.

use percolator_stake::error::{ProcessError, StakeError};
use percolator_stake::state::{StakeDeposit, StakePool};

fn funded_pool() -> StakePool {
    let mut pool = StakePool::zeroed();
    pool.is_initialized = 1;
    pool.total_deposited = 1000;
    pool.total_lp_supply = 500;
    pool
}

fn totals(pool: &StakePool) -> (u64, u64, u64, u64, u64) {
    (
        pool.total_deposited,
        pool.total_withdrawn,
        pool.total_flushed,
        pool.total_returned,
        pool.total_lp_supply,
    )
}

#[test]
fn test_record_deposit() {
    let mut pool = funded_pool();
    assert_eq!(pool.record_deposit(100, 50), Ok(()));
    assert_eq!(totals(&pool), (1100, 0, 0, 0, 550));
    assert_eq!(pool.total_pool_value(), Some(1100));
}

#[test]
fn test_record_deposit_overflow_changes_nothing() {
    let mut pool = funded_pool();
    pool.total_deposited = u64::MAX - 5;
    let before = totals(&pool);
    assert_eq!(pool.record_deposit(6, 1), Err(StakeError::Overflow));
    assert_eq!(totals(&pool), before);
    assert_eq!(pool.record_deposit(5, 1), Ok(()));
    assert_eq!(pool.total_deposited, u64::MAX);

    let mut pool = funded_pool();
    pool.total_lp_supply = u64::MAX;
    let before = totals(&pool);
    // the deposited total would fit, the supply would not: neither moves
    assert_eq!(pool.record_deposit(1, 1), Err(StakeError::Overflow));
    assert_eq!(totals(&pool), before);
}

#[test]
fn test_record_withdraw() {
    let mut pool = funded_pool();
    assert_eq!(pool.record_withdraw(200, 100), Ok(()));
    assert_eq!(totals(&pool), (1000, 200, 0, 0, 400));
    assert_eq!(pool.total_pool_value(), Some(800));
}

#[test]
fn test_record_withdraw_failure_changes_nothing() {
    let mut pool = funded_pool();
    let before = totals(&pool);
    assert_eq!(pool.record_withdraw(1, 501), Err(StakeError::Overflow));
    assert_eq!(totals(&pool), before);
    pool.total_withdrawn = u64::MAX;
    let before = totals(&pool);
    assert_eq!(pool.record_withdraw(1, 1), Err(StakeError::Overflow));
    assert_eq!(totals(&pool), before);
}

#[test]
fn test_record_flush_and_return() {
    let mut pool = funded_pool();
    pool.total_withdrawn = 100;
    let value_before = pool.total_pool_value();
    assert_eq!(value_before, Some(900));

    assert_eq!(pool.check_flush(900), Ok(()));
    assert_eq!(pool.record_flush(400), Ok(()));
    assert_eq!(totals(&pool), (1000, 100, 400, 0, 500));
    assert_eq!(pool.total_pool_value(), Some(500));

    assert_eq!(pool.record_return(400), Ok(()));
    assert_eq!(totals(&pool), (1000, 100, 400, 400, 500));
    // flush then full return: the value from before the flush, exactly
    assert_eq!(pool.total_pool_value(), value_before);
}

#[test]
fn test_record_flush_limits() {
    let mut pool = funded_pool();
    pool.total_withdrawn = 100;
    pool.total_flushed = 300;
    let before = totals(&pool);
    // 1000 - 100 - 300 = 600 may still go
    assert_eq!(pool.check_flush(601), Err(ProcessError::InsufficientFunds));
    assert_eq!(pool.record_flush(601), Err(ProcessError::InsufficientFunds));
    assert_eq!(totals(&pool), before);
    assert_eq!(pool.record_flush(600), Ok(()));
    assert_eq!(pool.total_flushed, 900);
    assert_eq!(pool.record_flush(1), Err(ProcessError::InsufficientFunds));
    assert_eq!(pool.record_flush(0), Ok(()));
}

#[test]
fn test_record_flush_on_broken_ledger() {
    let mut pool = funded_pool();
    pool.total_withdrawn = 1001;
    let before = totals(&pool);
    assert_eq!(pool.check_flush(0), Err(ProcessError::Stake(StakeError::Overflow)));
    assert_eq!(pool.record_flush(1), Err(ProcessError::Stake(StakeError::Overflow)));
    assert_eq!(totals(&pool), before);

    let mut pool = funded_pool();
    pool.total_flushed = 1001;
    assert_eq!(pool.record_flush(0), Err(ProcessError::Stake(StakeError::Overflow)));
}

#[test]
fn test_record_return_overflow_changes_nothing() {
    let mut pool = funded_pool();
    pool.total_returned = u64::MAX;
    let before = totals(&pool);
    assert_eq!(pool.record_return(1), Err(StakeError::Overflow));
    assert_eq!(totals(&pool), before);
    assert_eq!(pool.record_return(0), Ok(()));
}

#[test]
fn test_pool_pricing_on_broken_ledger() {
    let mut pool = StakePool::zeroed();
    pool.total_deposited = 100;
    pool.total_withdrawn = 200;
    assert_eq!(pool.total_pool_value(), None);
    // a ledger that does not add up neither mints nor pays
    assert_eq!(pool.calc_lp_for_deposit(50), None);
    assert_eq!(pool.calc_collateral_for_withdraw(50), None);
    pool.total_lp_supply = 10;
    assert_eq!(pool.calc_lp_for_deposit(50), None);
    assert_eq!(pool.calc_collateral_for_withdraw(5), None);
}

#[test]
fn test_pool_frozen_with_orphaned_value() {
    let mut pool = StakePool::zeroed();
    pool.total_deposited = 1000;
    pool.total_withdrawn = 1000;
    pool.total_flushed = 0;
    pool.total_returned = 500;
    pool.total_lp_supply = 0;
    assert_eq!(pool.total_pool_value(), Some(500));
    assert_eq!(pool.calc_lp_for_deposit(1), None);
    assert_eq!(pool.calc_collateral_for_withdraw(1), None);
}

#[test]
fn test_initialize_and_config() {
    let mut pool = StakePool::zeroed();
    pool.total_deposited = 9;
    pool.admin_transferred = 1;
    pool.initialize(
        250, 251, [1; 32], [2; 32], [3; 32], [4; 32], [5; 32], [6; 32], 100, 5000,
    );
    assert_eq!(pool.is_initialized, 1);
    assert_eq!(pool.bump, 250);
    assert_eq!(pool.vault_authority_bump, 251);
    assert_eq!(pool.admin_transferred, 0);
    assert_eq!(pool.slab, [1; 32]);
    assert_eq!(pool.admin, [2; 32]);
    assert_eq!(pool.collateral_mint, [3; 32]);
    assert_eq!(pool.lp_mint, [4; 32]);
    assert_eq!(pool.vault, [5; 32]);
    assert_eq!(pool.percolator_program, [6; 32]);
    assert_eq!(pool.cooldown_slots, 100);
    assert_eq!(pool.deposit_cap, 5000);
    assert_eq!(totals(&pool), (0, 0, 0, 0, 0));
    assert_eq!(pool.total_pool_value(), Some(0));

    pool.update_config(None, None);
    assert_eq!((pool.cooldown_slots, pool.deposit_cap), (100, 5000));
    pool.update_config(Some(7), None);
    assert_eq!((pool.cooldown_slots, pool.deposit_cap), (7, 5000));
    pool.update_config(None, Some(0));
    assert_eq!((pool.cooldown_slots, pool.deposit_cap), (7, 0));
    pool.update_config(Some(1), Some(2));
    assert_eq!((pool.cooldown_slots, pool.deposit_cap), (1, 2));

    pool.mark_admin_transferred();
    assert_eq!(pool.admin_transferred, 1);
    assert_eq!(pool.is_initialized, 1);
}

#[test]
fn test_deposit_record_updates() {
    let mut record = StakeDeposit::zeroed();
    assert_eq!(record.record_deposit(9, [1; 32], [2; 32], 1234, 50), Ok(()));
    assert_eq!(record.is_initialized, 1);
    assert_eq!(record.bump, 9);
    assert_eq!(record.pool, [1; 32]);
    assert_eq!(record.user, [2; 32]);
    assert_eq!(record.last_deposit_slot, 1234);
    assert_eq!(record.lp_amount, 50);

    // a second deposit restarts the cooldown and adds to the balance
    assert_eq!(record.record_deposit(9, [1; 32], [2; 32], 2000, 25), Ok(()));
    assert_eq!(record.last_deposit_slot, 2000);
    assert_eq!(record.lp_amount, 75);

    assert!(!record.cooldown_elapsed(100, 2099));
    assert!(record.cooldown_elapsed(100, 2100));
    assert!(!record.cooldown_elapsed(u64::MAX, 3000));

    assert_eq!(record.record_withdraw(76), Err(StakeError::InsufficientLpTokens));
    assert_eq!(record.lp_amount, 75);
    assert_eq!(record.record_withdraw(75), Ok(()));
    assert_eq!(record.lp_amount, 0);
    assert_eq!(record.last_deposit_slot, 2000);

    record.lp_amount = u64::MAX;
    assert_eq!(record.record_deposit(1, [7; 32], [8; 32], 5, 1), Err(StakeError::Overflow));
    assert_eq!(record.bump, 9);
    assert_eq!(record.pool, [1; 32]);
    assert_eq!(record.last_deposit_slot, 2000);
    assert_eq!(record.lp_amount, u64::MAX);
}
