//! The handlers' decisions: what each check gives on valid input, and the
//! first reason it names on invalid input.

use percolator_stake::accounts::{
    AccountView, AdminAccounts, ConfigAccounts, DepositAccounts, FlushAccounts, InitPoolAccounts,
    WithdrawAccounts, WithdrawInsuranceAccounts,
};
use percolator_stake::error::{ProcessError, StakeError};
use percolator_stake::processor::{
    check_deposit, check_deposit_record, check_flush, check_init_pool, check_transfer_admin,
    check_update_config, check_withdraw, check_withdraw_insurance, check_withdraw_pool,
    require_nonzero, require_signer, validate_admin_cpi,
};
use percolator_stake::state::{
    derive_deposit_pda, derive_pool_pda, derive_vault_authority, StakeDeposit, StakePool,
};

const PROGRAM: [u8; 32] = [42; 32];
const ADMIN: [u8; 32] = [1; 32];
const SLAB: [u8; 32] = [2; 32];
const LP_MINT: [u8; 32] = [3; 32];
const VAULT: [u8; 32] = [4; 32];
const COLLATERAL: [u8; 32] = [5; 32];
const PERCOLATOR: [u8; 32] = [6; 32];
const USER: [u8; 32] = [7; 32];
const OTHER: [u8; 32] = [99; 32];

fn stake(e: StakeError) -> ProcessError {
    ProcessError::Stake(e)
}

fn acct(key: [u8; 32]) -> AccountView {
    AccountView { key, is_signer: false, data_is_empty: false }
}

fn signer(key: [u8; 32]) -> AccountView {
    AccountView { key, is_signer: true, data_is_empty: false }
}

fn token() -> [u8; 32] {
    spl_token::id().to_bytes()
}

fn pool_key() -> [u8; 32] {
    derive_pool_pda(&PROGRAM, &SLAB).unwrap().0
}

fn pool_bump() -> u8 {
    derive_pool_pda(&PROGRAM, &SLAB).unwrap().1
}

fn vault_auth() -> ([u8; 32], u8) {
    derive_vault_authority(&PROGRAM, &pool_key()).unwrap()
}

fn deposit_key() -> ([u8; 32], u8) {
    derive_deposit_pda(&PROGRAM, &pool_key(), &USER).unwrap()
}

fn live_pool() -> StakePool {
    let mut pool = StakePool::zeroed();
    pool.initialize(pool_bump(), vault_auth().1, SLAB, ADMIN, COLLATERAL, LP_MINT, VAULT, PERCOLATOR, 100, 0);
    pool.total_deposited = 2000;
    pool.total_lp_supply = 1000;
    pool
}

fn deposit_roles() -> DepositAccounts {
    DepositAccounts {
        user: signer(USER),
        pool_pda: acct(pool_key()),
        user_ata: acct([10; 32]),
        vault: acct(VAULT),
        lp_mint: acct(LP_MINT),
        user_lp_ata: acct([11; 32]),
        vault_auth: acct(vault_auth().0),
        deposit_pda: acct(deposit_key().0),
        token_program: acct(token()),
        clock_sysvar: acct([12; 32]),
        system_program: acct([0; 32]),
    }
}

fn withdraw_roles() -> WithdrawAccounts {
    WithdrawAccounts {
        user: signer(USER),
        pool_pda: acct(pool_key()),
        user_lp_ata: acct([11; 32]),
        lp_mint: acct(LP_MINT),
        vault: acct(VAULT),
        user_ata: acct([10; 32]),
        vault_auth: acct(vault_auth().0),
        deposit_pda: acct(deposit_key().0),
        token_program: acct(token()),
        clock_sysvar: acct([12; 32]),
    }
}

fn user_record() -> StakeDeposit {
    let mut record = StakeDeposit::zeroed();
    record.record_deposit(deposit_key().1, pool_key(), USER, 1000, 400).unwrap();
    record
}

fn flush_roles() -> FlushAccounts {
    FlushAccounts {
        caller: signer(ADMIN),
        pool_pda: acct(pool_key()),
        vault: acct(VAULT),
        vault_auth: acct(vault_auth().0),
        slab: acct(SLAB),
        wrapper_vault: acct([13; 32]),
        percolator_program: acct(PERCOLATOR),
        token_program: acct(token()),
    }
}

fn admin_roles() -> AdminAccounts {
    AdminAccounts {
        admin: signer(ADMIN),
        pool_pda: acct(pool_key()),
        slab: acct(SLAB),
        percolator_program: acct(PERCOLATOR),
    }
}

fn init_roles() -> InitPoolAccounts {
    InitPoolAccounts {
        admin: signer(ADMIN),
        slab: acct(SLAB),
        pool_pda: AccountView { key: pool_key(), is_signer: false, data_is_empty: true },
        lp_mint: acct(LP_MINT),
        vault: acct(VAULT),
        vault_auth: acct(vault_auth().0),
        collateral_mint: acct(COLLATERAL),
        percolator_program: acct(PERCOLATOR),
        token_program: acct(token()),
        system_program: acct([0; 32]),
        rent_sysvar: acct([14; 32]),
    }
}

fn insurance_roles() -> WithdrawInsuranceAccounts {
    WithdrawInsuranceAccounts {
        admin: signer(ADMIN),
        pool_pda: acct(pool_key()),
        slab: acct(SLAB),
        vault_auth: acct(vault_auth().0),
        stake_vault: acct(VAULT),
        wrapper_vault: acct([13; 32]),
        wrapper_vault_pda: acct([15; 32]),
        percolator_program: acct(PERCOLATOR),
        token_program: acct(token()),
        clock: acct([12; 32]),
    }
}

#[test]
fn test_require_nonzero_and_signer() {
    assert_eq!(require_nonzero(0), Err(stake(StakeError::ZeroAmount)));
    assert_eq!(require_nonzero(1), Ok(()));
    assert_eq!(require_nonzero(u64::MAX), Ok(()));
    assert_eq!(require_signer(&signer(USER)), Ok(()));
    assert_eq!(require_signer(&acct(USER)), Err(ProcessError::MissingRequiredSignature));
}

#[test]
fn test_init_pool_checks() {
    assert_eq!(check_init_pool(&PROGRAM, &init_roles()), Ok((pool_bump(), vault_auth().1)));

    let mut r = init_roles();
    r.admin.is_signer = false;
    assert_eq!(check_init_pool(&PROGRAM, &r), Err(ProcessError::MissingRequiredSignature));

    let mut r = init_roles();
    r.pool_pda.key = OTHER;
    assert_eq!(check_init_pool(&PROGRAM, &r), Err(stake(StakeError::InvalidPda)));

    let mut r = init_roles();
    r.pool_pda.data_is_empty = false;
    assert_eq!(check_init_pool(&PROGRAM, &r), Err(stake(StakeError::AlreadyInitialized)));

    let mut r = init_roles();
    r.vault_auth.key = OTHER;
    assert_eq!(check_init_pool(&PROGRAM, &r), Err(stake(StakeError::InvalidPda)));

    let mut r = init_roles();
    r.token_program.key = OTHER;
    assert_eq!(check_init_pool(&PROGRAM, &r), Err(ProcessError::IncorrectProgramId));

    // a pool address derived under another program does not match
    assert_eq!(check_init_pool(&[43; 32], &init_roles()), Err(stake(StakeError::InvalidPda)));
}

#[test]
fn test_deposit_prices_at_pool_rate() {
    // 1000 LP on a value of 2000: 500 buys floor(500 * 1000 / 2000) = 250
    assert_eq!(check_deposit(&live_pool(), &deposit_roles(), 500), Ok(250));
    // 7 buys floor(7 * 1000 / 2000) = 3
    assert_eq!(check_deposit(&live_pool(), &deposit_roles(), 7), Ok(3));

    let mut empty = live_pool();
    empty.total_deposited = 0;
    empty.total_lp_supply = 0;
    assert_eq!(check_deposit(&empty, &deposit_roles(), 1234), Ok(1234));
}

#[test]
fn test_deposit_refusals_in_order() {
    let pool = live_pool();
    let mut r = deposit_roles();
    r.user.is_signer = false;
    // a zero amount comes before everything else
    assert_eq!(check_deposit(&pool, &r, 0), Err(stake(StakeError::ZeroAmount)));
    assert_eq!(check_deposit(&pool, &r, 5), Err(ProcessError::MissingRequiredSignature));

    let mut p = live_pool();
    p.is_initialized = 0;
    assert_eq!(check_deposit(&p, &deposit_roles(), 5), Err(stake(StakeError::NotInitialized)));
    p.is_initialized = 2;
    assert_eq!(check_deposit(&p, &deposit_roles(), 5), Err(stake(StakeError::NotInitialized)));

    let mut r = deposit_roles();
    r.lp_mint.key = OTHER;
    r.vault.key = OTHER;
    assert_eq!(check_deposit(&pool, &r, 5), Err(stake(StakeError::InvalidMint)));
    r.lp_mint.key = LP_MINT;
    assert_eq!(check_deposit(&pool, &r, 5), Err(stake(StakeError::InvalidPda)));

    let mut r = deposit_roles();
    r.token_program.key = OTHER;
    assert_eq!(check_deposit(&pool, &r, 5), Err(ProcessError::IncorrectProgramId));

    // a deposit too small to mint a single token
    assert_eq!(check_deposit(&pool, &deposit_roles(), 1), Err(stake(StakeError::ZeroAmount)));
}

#[test]
fn test_deposit_cap() {
    let mut pool = live_pool();
    pool.deposit_cap = 2500;
    assert_eq!(check_deposit(&pool, &deposit_roles(), 500), Ok(250));
    assert_eq!(
        check_deposit(&pool, &deposit_roles(), 501),
        Err(stake(StakeError::DepositCapExceeded))
    );
    // the cap is measured against the pool's value, not the lifetime deposits
    pool.total_deposited = 10_000;
    pool.total_withdrawn = 8_000;
    assert_eq!(check_deposit(&pool, &deposit_roles(), 500), Ok(250));
    // a sum beyond 64 bits exceeds every cap
    pool.deposit_cap = u64::MAX;
    assert_eq!(
        check_deposit(&pool, &deposit_roles(), u64::MAX),
        Err(stake(StakeError::DepositCapExceeded))
    );
    // the cap comes before the token program
    let mut r = deposit_roles();
    r.token_program.key = OTHER;
    pool.deposit_cap = 2500;
    assert_eq!(check_deposit(&pool, &r, 501), Err(stake(StakeError::DepositCapExceeded)));
}

#[test]
fn test_deposit_into_blocked_or_broken_pool() {
    let mut orphaned = live_pool();
    orphaned.total_lp_supply = 0;
    assert_eq!(check_deposit(&orphaned, &deposit_roles(), 5), Err(stake(StakeError::Overflow)));

    let mut valueless = live_pool();
    valueless.total_flushed = 2000;
    assert_eq!(check_deposit(&valueless, &deposit_roles(), 5), Err(stake(StakeError::Overflow)));

    let mut broken = live_pool();
    broken.total_withdrawn = 2001;
    broken.total_lp_supply = 0;
    assert_eq!(check_deposit(&broken, &deposit_roles(), 5), Err(stake(StakeError::Overflow)));

    let mut rich = live_pool();
    rich.total_deposited = 1;
    rich.total_lp_supply = u64::MAX;
    // floor(2 * (2^64 - 1) / 1) leaves 64 bits
    assert_eq!(check_deposit(&rich, &deposit_roles(), 2), Err(stake(StakeError::Overflow)));
}

#[test]
fn test_deposit_record_address() {
    assert_eq!(check_deposit_record(&PROGRAM, &deposit_roles()), Ok(deposit_key().1));
    let mut r = deposit_roles();
    r.deposit_pda.key = OTHER;
    assert_eq!(check_deposit_record(&PROGRAM, &r), Err(stake(StakeError::InvalidPda)));
    // another user's record
    let mut r = deposit_roles();
    r.user.key = OTHER;
    assert_eq!(check_deposit_record(&PROGRAM, &r), Err(stake(StakeError::InvalidPda)));
}

#[test]
fn test_withdraw_prices_at_pool_rate() {
    // 1000 LP on a value of 2000: 400 LP pay floor(400 * 2000 / 1000) = 800
    let r = withdraw_roles();
    assert_eq!(check_withdraw_pool(&live_pool(), &r, 400), Ok(()));
    assert_eq!(check_withdraw(&live_pool(), &user_record(), &r, 400, 1100), Ok(800));
    assert_eq!(check_withdraw(&live_pool(), &user_record(), &r, 1, u64::MAX), Ok(2));

    let mut pool = live_pool();
    pool.total_deposited = 10;
    pool.total_lp_supply = 7;
    // floor(3 * 10 / 7) = 4
    assert_eq!(check_withdraw(&pool, &user_record(), &r, 3, 1100), Ok(4));
}

#[test]
fn test_withdraw_refusals_in_order() {
    let pool = live_pool();
    let rec = user_record();
    let mut r = withdraw_roles();
    r.user.is_signer = false;
    assert_eq!(check_withdraw(&pool, &rec, &r, 0, 1100), Err(stake(StakeError::ZeroAmount)));
    assert_eq!(check_withdraw_pool(&pool, &r, 0), Err(stake(StakeError::ZeroAmount)));
    assert_eq!(
        check_withdraw(&pool, &rec, &r, 5, 1100),
        Err(ProcessError::MissingRequiredSignature)
    );

    let mut p = live_pool();
    p.is_initialized = 0;
    assert_eq!(
        check_withdraw(&p, &rec, &withdraw_roles(), 5, 1100),
        Err(stake(StakeError::NotInitialized))
    );

    let mut r = withdraw_roles();
    r.lp_mint.key = OTHER;
    assert_eq!(check_withdraw_pool(&pool, &r, 5), Err(stake(StakeError::InvalidMint)));
    let mut r = withdraw_roles();
    r.vault.key = OTHER;
    assert_eq!(check_withdraw_pool(&pool, &r, 5), Err(stake(StakeError::InvalidPda)));
    let mut r = withdraw_roles();
    r.token_program.key = OTHER;
    assert_eq!(check_withdraw_pool(&pool, &r, 5), Err(ProcessError::IncorrectProgramId));
    assert_eq!(check_withdraw(&pool, &rec, &r, 5, 0), Err(ProcessError::IncorrectProgramId));
}

#[test]
fn test_withdraw_record_checks() {
    let pool = live_pool();
    let r = withdraw_roles();
    let unauthorized = Err(stake(StakeError::Unauthorized));

    assert_eq!(check_withdraw(&pool, &StakeDeposit::zeroed(), &r, 5, 1100), unauthorized);
    let mut rec = user_record();
    rec.user = OTHER;
    assert_eq!(check_withdraw(&pool, &rec, &r, 5, 1100), unauthorized);
    let mut rec = user_record();
    rec.pool = OTHER;
    assert_eq!(check_withdraw(&pool, &rec, &r, 5, 1100), unauthorized);

    // deposited at slot 1000 with a cooldown of 100
    let rec = user_record();
    let cooling = Err(stake(StakeError::CooldownNotElapsed));
    assert_eq!(check_withdraw(&pool, &rec, &r, 5, 1000), cooling);
    assert_eq!(check_withdraw(&pool, &rec, &r, 5, 1099), cooling);
    assert_eq!(check_withdraw(&pool, &rec, &r, 5, 1100), Ok(10));
    // the cooldown comes before the balance
    assert_eq!(check_withdraw(&pool, &rec, &r, 401, 1099), cooling);

    assert_eq!(
        check_withdraw(&pool, &rec, &r, 401, 1100),
        Err(stake(StakeError::InsufficientLpTokens))
    );
    assert_eq!(check_withdraw(&pool, &rec, &r, 400, 1100), Ok(800));
}

#[test]
fn test_withdraw_from_pool_without_value() {
    let rec = user_record();
    let r = withdraw_roles();
    let mut flushed = live_pool();
    flushed.total_flushed = 2000;
    // the tokens are worth nothing while everything sits in the reserve
    assert_eq!(check_withdraw(&flushed, &rec, &r, 5, 1100), Err(stake(StakeError::ZeroAmount)));

    let mut broken = live_pool();
    broken.total_withdrawn = 2001;
    assert_eq!(check_withdraw(&broken, &rec, &r, 5, 1100), Err(stake(StakeError::Overflow)));

    let mut no_supply = live_pool();
    no_supply.total_lp_supply = 0;
    assert_eq!(check_withdraw(&no_supply, &rec, &r, 5, 1100), Err(stake(StakeError::Overflow)));
}

#[test]
fn test_flush_checks() {
    let pool = live_pool();
    assert_eq!(check_flush(&PROGRAM, &pool, &flush_roles(), 2000), Ok(vault_auth().1));
    assert_eq!(check_flush(&PROGRAM, &pool, &flush_roles(), 1), Ok(vault_auth().1));

    assert_eq!(
        check_flush(&PROGRAM, &pool, &flush_roles(), 0),
        Err(stake(StakeError::ZeroAmount))
    );
    let mut r = flush_roles();
    r.caller.is_signer = false;
    assert_eq!(
        check_flush(&PROGRAM, &pool, &r, 5),
        Err(ProcessError::MissingRequiredSignature)
    );
    let mut p = live_pool();
    p.is_initialized = 0;
    assert_eq!(
        check_flush(&PROGRAM, &p, &flush_roles(), 5),
        Err(stake(StakeError::NotInitialized))
    );
    // only the admin may flush
    let mut r = flush_roles();
    r.caller = signer(USER);
    assert_eq!(check_flush(&PROGRAM, &pool, &r, 5), Err(stake(StakeError::Unauthorized)));
    let mut r = flush_roles();
    r.slab.key = OTHER;
    assert_eq!(check_flush(&PROGRAM, &pool, &r, 5), Err(stake(StakeError::InvalidPda)));
    let mut r = flush_roles();
    r.vault.key = OTHER;
    assert_eq!(check_flush(&PROGRAM, &pool, &r, 5), Err(stake(StakeError::InvalidPda)));
    let mut r = flush_roles();
    r.percolator_program.key = OTHER;
    assert_eq!(
        check_flush(&PROGRAM, &pool, &r, 5),
        Err(stake(StakeError::InvalidPercolatorProgram))
    );
    assert_eq!(
        check_flush(&PROGRAM, &pool, &flush_roles(), 2001),
        Err(ProcessError::InsufficientFunds)
    );
    let mut p = live_pool();
    p.total_withdrawn = 2001;
    assert_eq!(check_flush(&PROGRAM, &p, &flush_roles(), 5), Err(stake(StakeError::Overflow)));
    let mut r = flush_roles();
    r.vault_auth.key = OTHER;
    assert_eq!(check_flush(&PROGRAM, &pool, &r, 5), Err(stake(StakeError::InvalidPda)));
    // the amount is checked before the vault authority
    assert_eq!(check_flush(&PROGRAM, &pool, &r, 2001), Err(ProcessError::InsufficientFunds));
}

#[test]
fn test_update_config_checks() {
    let pool = live_pool();
    let roles = ConfigAccounts { admin: signer(ADMIN), pool_pda: acct(pool_key()) };
    assert_eq!(check_update_config(&pool, &roles), Ok(()));

    let unsigned = ConfigAccounts { admin: acct(ADMIN), pool_pda: acct(pool_key()) };
    assert_eq!(check_update_config(&pool, &unsigned), Err(ProcessError::MissingRequiredSignature));
    let mut p = live_pool();
    p.is_initialized = 0;
    assert_eq!(check_update_config(&p, &roles), Err(stake(StakeError::NotInitialized)));
    let stranger = ConfigAccounts { admin: signer(USER), pool_pda: acct(pool_key()) };
    assert_eq!(check_update_config(&pool, &stranger), Err(stake(StakeError::Unauthorized)));
}

#[test]
fn test_transfer_admin_checks() {
    let pool = live_pool();
    assert_eq!(check_transfer_admin(&PROGRAM, &pool, &admin_roles()), Ok(()));

    let mut r = admin_roles();
    r.admin.is_signer = false;
    assert_eq!(
        check_transfer_admin(&PROGRAM, &pool, &r),
        Err(ProcessError::MissingRequiredSignature)
    );
    let mut p = live_pool();
    p.is_initialized = 0;
    assert_eq!(
        check_transfer_admin(&PROGRAM, &p, &admin_roles()),
        Err(stake(StakeError::NotInitialized))
    );
    let mut r = admin_roles();
    r.admin = signer(USER);
    assert_eq!(check_transfer_admin(&PROGRAM, &pool, &r), Err(stake(StakeError::Unauthorized)));
    let mut p = live_pool();
    p.mark_admin_transferred();
    assert_eq!(
        check_transfer_admin(&PROGRAM, &p, &admin_roles()),
        Err(stake(StakeError::AdminAlreadyTransferred))
    );
    let mut r = admin_roles();
    r.slab.key = OTHER;
    assert_eq!(check_transfer_admin(&PROGRAM, &pool, &r), Err(stake(StakeError::InvalidPda)));
    let mut r = admin_roles();
    r.percolator_program.key = OTHER;
    assert_eq!(
        check_transfer_admin(&PROGRAM, &pool, &r),
        Err(stake(StakeError::InvalidPercolatorProgram))
    );
    let mut r = admin_roles();
    r.pool_pda.key = OTHER;
    assert_eq!(check_transfer_admin(&PROGRAM, &pool, &r), Err(stake(StakeError::InvalidPda)));
}

#[test]
fn test_validate_admin_cpi() {
    let mut pool = live_pool();
    assert_eq!(
        validate_admin_cpi(&PROGRAM, &pool, &admin_roles()),
        Err(stake(StakeError::AdminNotTransferred))
    );
    pool.mark_admin_transferred();
    assert_eq!(validate_admin_cpi(&PROGRAM, &pool, &admin_roles()), Ok(pool_bump()));

    let mut r = admin_roles();
    r.admin.is_signer = false;
    assert_eq!(
        validate_admin_cpi(&PROGRAM, &pool, &r),
        Err(ProcessError::MissingRequiredSignature)
    );
    let mut p = pool;
    p.is_initialized = 0;
    assert_eq!(
        validate_admin_cpi(&PROGRAM, &p, &admin_roles()),
        Err(stake(StakeError::NotInitialized))
    );
    let mut r = admin_roles();
    r.admin = signer(USER);
    assert_eq!(validate_admin_cpi(&PROGRAM, &pool, &r), Err(stake(StakeError::Unauthorized)));
    let mut r = admin_roles();
    r.slab.key = OTHER;
    assert_eq!(validate_admin_cpi(&PROGRAM, &pool, &r), Err(stake(StakeError::InvalidPda)));
    let mut r = admin_roles();
    r.percolator_program.key = OTHER;
    assert_eq!(
        validate_admin_cpi(&PROGRAM, &pool, &r),
        Err(stake(StakeError::InvalidPercolatorProgram))
    );
    let mut r = admin_roles();
    r.pool_pda.key = OTHER;
    assert_eq!(validate_admin_cpi(&PROGRAM, &pool, &r), Err(stake(StakeError::InvalidPda)));
}

#[test]
fn test_withdraw_insurance_checks() {
    let mut pool = live_pool();
    assert_eq!(
        check_withdraw_insurance(&PROGRAM, &pool, &insurance_roles()),
        Err(stake(StakeError::AdminNotTransferred))
    );
    pool.mark_admin_transferred();
    assert_eq!(
        check_withdraw_insurance(&PROGRAM, &pool, &insurance_roles()),
        Ok(vault_auth().1)
    );
    let mut r = insurance_roles();
    r.vault_auth.key = OTHER;
    assert_eq!(
        check_withdraw_insurance(&PROGRAM, &pool, &r),
        Err(ProcessError::InvalidArgument)
    );
    r.admin.is_signer = false;
    assert_eq!(
        check_withdraw_insurance(&PROGRAM, &pool, &r),
        Err(ProcessError::MissingRequiredSignature)
    );
}
