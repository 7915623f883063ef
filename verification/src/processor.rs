//! The decisions of every instruction handler.
//!
//! A handler reads accounts, calls other programs and writes state; what it
//! decides in between stands here, as functions of plain values. Each check
//! names the first reason to refuse, in a fixed order, or gives what the
//! handler needs to go on. The state changes themselves are methods of the
//! pool and of the deposit record.

use vstd::prelude::*;
use crate::accounts::{
    AccountView, AdminAccounts, ConfigAccounts, DepositAccounts, FlushAccounts, InitPoolAccounts,
    WithdrawAccounts, WithdrawInsuranceAccounts,
};
use crate::bytes::keys_equal;
use crate::error::{ProcessError, StakeError};
use crate::math::{collateral_for_withdraw, lp_for_deposit};
use crate::policy::{cooldown_end, exceeds_cap};
use crate::runtime::{spl_token_id, token_program_id};
use crate::state::{
    deposit_pda, derive_deposit_pda, derive_pool_pda, derive_vault_authority, pool_pda,
    vault_authority_pda, StakeDeposit, StakePool,
};

verus! {

/// The bump of a derivation that gave the address `key`, and `None` where
/// the derivation failed or gave another address.
pub open spec fn bump_for(derivation: Option<(Seq<u8>, u8)>, key: Seq<u8>) -> Option<u8> {
    match derivation {
        Some(pair) => if pair.0 == key {
            Some(pair.1)
        } else {
            None
        },
        None => None,
    }
}

/// Compares a derived address with the key an account was passed under:
/// the bump where they are the same, `None` where they differ or nothing
/// was derived.
pub fn derived_bump(derived: Option<([u8; 32], u8)>, key: &[u8; 32]) -> (bump: Option<u8>)
    ensures
        bump == match derived {
            Some(pair) => if pair.0@ == key@ {
                Some(pair.1)
            } else {
                None
            },
            None => None,
        },
{
    match derived {
        Some(pair) => {
            if keys_equal(&pair.0, key) {
                Some(pair.1)
            } else {
                None
            }
        },
        None => None,
    }
}

/// Refuses an amount of zero with `ZeroAmount`.
pub fn require_nonzero(amount: u64) -> (checked: Result<(), ProcessError>)
    ensures
        checked == if amount == 0 {
            Err::<(), ProcessError>(ProcessError::Stake(StakeError::ZeroAmount))
        } else {
            Ok::<(), ProcessError>(())
        },
{
    if amount == 0 {
        Err(ProcessError::Stake(StakeError::ZeroAmount))
    } else {
        Ok(())
    }
}

/// Refuses an account that did not sign with `MissingRequiredSignature`.
pub fn require_signer(account: &AccountView) -> (checked: Result<(), ProcessError>)
    ensures
        checked == if account.is_signer {
            Ok::<(), ProcessError>(())
        } else {
            Err::<(), ProcessError>(ProcessError::MissingRequiredSignature)
        },
{
    if account.is_signer {
        Ok(())
    } else {
        Err(ProcessError::MissingRequiredSignature)
    }
}

/// Checks that `token_program` is the SPL Token program, and refuses any
/// other with `IncorrectProgramId`. A handler must pass this before it lets
/// the token program act for a program address: a forged token program
/// given that authority could drain the vault.
pub fn verify_token_program(token_program: &[u8; 32]) -> (checked: Result<(), ProcessError>)
    ensures
        checked == if token_program@ == spl_token_id() {
            Ok::<(), ProcessError>(())
        } else {
            Err::<(), ProcessError>(ProcessError::IncorrectProgramId)
        },
{
    let expected: [u8; 32] = token_program_id();
    if keys_equal(token_program, &expected) {
        Ok(())
    } else {
        Err(ProcessError::IncorrectProgramId)
    }
}

/// What `validate_admin_cpi` returns: the bump of the pool address, or the
/// first of these that fails. The admin signed; the pool is initialized;
/// the admin is the pool's; the wrapper's admin was transferred to the
/// pool; the slab is the pool's; the wrapper program is the pool's; and the
/// pool account is the address derived for the slab.
pub open spec fn admin_cpi_outcome(program_id: Seq<u8>, pool: StakePool, roles: AdminAccounts) -> Result<
    u8,
    ProcessError,
> {
    if !roles.admin.is_signer {
        Err(ProcessError::MissingRequiredSignature)
    } else if pool.is_initialized != 1 {
        Err(ProcessError::Stake(StakeError::NotInitialized))
    } else if pool.admin@ != roles.admin.key@ {
        Err(ProcessError::Stake(StakeError::Unauthorized))
    } else if pool.admin_transferred != 1 {
        Err(ProcessError::Stake(StakeError::AdminNotTransferred))
    } else if pool.slab@ != roles.slab.key@ {
        Err(ProcessError::Stake(StakeError::InvalidPda))
    } else if pool.percolator_program@ != roles.percolator_program.key@ {
        Err(ProcessError::Stake(StakeError::InvalidPercolatorProgram))
    } else {
        match bump_for(pool_pda(program_id, roles.slab.key@), roles.pool_pda.key@) {
            Some(bump) => Ok(bump),
            None => Err(ProcessError::Stake(StakeError::InvalidPda)),
        }
    }
}

/// Checks that an admin instruction may be forwarded to the wrapper, and
/// returns the bump with which the pool address signs.
pub fn validate_admin_cpi(program_id: &[u8; 32], pool: &StakePool, roles: &AdminAccounts) -> (checked:
    Result<u8, ProcessError>)
    ensures
        checked == admin_cpi_outcome(program_id@, *pool, *roles),
{
    if !roles.admin.is_signer {
        return Err(ProcessError::MissingRequiredSignature);
    }
    if pool.is_initialized != 1 {
        return Err(ProcessError::Stake(StakeError::NotInitialized));
    }
    if !keys_equal(&pool.admin, &roles.admin.key) {
        return Err(ProcessError::Stake(StakeError::Unauthorized));
    }
    if pool.admin_transferred != 1 {
        return Err(ProcessError::Stake(StakeError::AdminNotTransferred));
    }
    if !keys_equal(&pool.slab, &roles.slab.key) {
        return Err(ProcessError::Stake(StakeError::InvalidPda));
    }
    if !keys_equal(&pool.percolator_program, &roles.percolator_program.key) {
        return Err(ProcessError::Stake(StakeError::InvalidPercolatorProgram));
    }
    let derived = derive_pool_pda(program_id, &roles.slab.key);
    match derived_bump(derived, &roles.pool_pda.key) {
        Some(bump) => Ok(bump),
        None => Err(ProcessError::Stake(StakeError::InvalidPda)),
    }
}

/// What `check_init_pool` returns: the bumps of the pool address and of the
/// vault authority, or the first of these that fails. The admin signed; the
/// pool account is the address derived for the slab; it holds no data yet;
/// the vault authority is the address derived for the pool; and the token
/// program is the SPL Token program.
pub open spec fn init_pool_outcome(program_id: Seq<u8>, roles: InitPoolAccounts) -> Result<
    (u8, u8),
    ProcessError,
> {
    if !roles.admin.is_signer {
        Err(ProcessError::MissingRequiredSignature)
    } else {
        match bump_for(pool_pda(program_id, roles.slab.key@), roles.pool_pda.key@) {
            None => Err(ProcessError::Stake(StakeError::InvalidPda)),
            Some(pool_bump) => if !roles.pool_pda.data_is_empty {
                Err(ProcessError::Stake(StakeError::AlreadyInitialized))
            } else {
                match bump_for(
                    vault_authority_pda(program_id, roles.pool_pda.key@),
                    roles.vault_auth.key@,
                ) {
                    None => Err(ProcessError::Stake(StakeError::InvalidPda)),
                    Some(vault_bump) => if roles.token_program.key@ != spl_token_id() {
                        Err(ProcessError::IncorrectProgramId)
                    } else {
                        Ok((pool_bump, vault_bump))
                    },
                }
            },
        }
    }
}

/// Checks that a pool may be created for a slab, and returns the bumps of
/// the pool address and of the vault authority.
pub fn check_init_pool(program_id: &[u8; 32], roles: &InitPoolAccounts) -> (checked: Result<
    (u8, u8),
    ProcessError,
>)
    ensures
        checked == init_pool_outcome(program_id@, *roles),
{
    if !roles.admin.is_signer {
        return Err(ProcessError::MissingRequiredSignature);
    }
    let derived_pool = derive_pool_pda(program_id, &roles.slab.key);
    let pool_bump: u8 = match derived_bump(derived_pool, &roles.pool_pda.key) {
        Some(bump) => bump,
        None => { return Err(ProcessError::Stake(StakeError::InvalidPda)); },
    };
    if !roles.pool_pda.data_is_empty {
        return Err(ProcessError::Stake(StakeError::AlreadyInitialized));
    }
    let derived_auth = derive_vault_authority(program_id, &roles.pool_pda.key);
    let vault_bump: u8 = match derived_bump(derived_auth, &roles.vault_auth.key) {
        Some(bump) => bump,
        None => { return Err(ProcessError::Stake(StakeError::InvalidPda)); },
    };
    match verify_token_program(&roles.token_program.key) {
        Ok(()) => {},
        Err(e) => { return Err(e); },
    }
    Ok((pool_bump, vault_bump))
}

/// The value a deposit is measured against for the cap: the pool's value,
/// and zero for a ledger that does not add up.
pub open spec fn capped_value(pool: StakePool) -> u64 {
    match pool.value() {
        Some(v) => v,
        None => 0,
    }
}

/// What `check_deposit` returns: the LP tokens to mint, or the first of
/// these that fails. The amount is not zero; the user signed; the pool is
/// initialized; the LP mint and the vault are the pool's; the deposit keeps
/// the pool's value within the cap; the token program is the SPL Token
/// program; the deposit can be priced; and it mints at least one token.
pub open spec fn deposit_outcome(pool: StakePool, roles: DepositAccounts, amount: u64) -> Result<
    u64,
    ProcessError,
> {
    if amount == 0 {
        Err(ProcessError::Stake(StakeError::ZeroAmount))
    } else if !roles.user.is_signer {
        Err(ProcessError::MissingRequiredSignature)
    } else if pool.is_initialized != 1 {
        Err(ProcessError::Stake(StakeError::NotInitialized))
    } else if pool.lp_mint@ != roles.lp_mint.key@ {
        Err(ProcessError::Stake(StakeError::InvalidMint))
    } else if pool.vault@ != roles.vault.key@ {
        Err(ProcessError::Stake(StakeError::InvalidPda))
    } else if pool.deposit_cap > 0 && capped_value(pool) + amount > pool.deposit_cap {
        Err(ProcessError::Stake(StakeError::DepositCapExceeded))
    } else if roles.token_program.key@ != spl_token_id() {
        Err(ProcessError::IncorrectProgramId)
    } else {
        match pool.value() {
            None => Err(ProcessError::Stake(StakeError::Overflow)),
            Some(value) => match lp_for_deposit(pool.total_lp_supply, value, amount) {
                None => Err(ProcessError::Stake(StakeError::Overflow)),
                Some(lp) => if lp == 0 {
                    Err(ProcessError::Stake(StakeError::ZeroAmount))
                } else {
                    Ok(lp)
                },
            },
        }
    }
}

/// Checks a deposit of `amount` and prices it: returns the LP tokens to
/// mint for it.
pub fn check_deposit(pool: &StakePool, roles: &DepositAccounts, amount: u64) -> (checked: Result<
    u64,
    ProcessError,
>)
    ensures
        checked == deposit_outcome(*pool, *roles, amount),
        checked matches Ok(lp) ==> lp > 0 && lp * pool.value()->0 <= amount * pool.total_lp_supply,
{
    if amount == 0 {
        return Err(ProcessError::Stake(StakeError::ZeroAmount));
    }
    if !roles.user.is_signer {
        return Err(ProcessError::MissingRequiredSignature);
    }
    if pool.is_initialized != 1 {
        return Err(ProcessError::Stake(StakeError::NotInitialized));
    }
    if !keys_equal(&pool.lp_mint, &roles.lp_mint.key) {
        return Err(ProcessError::Stake(StakeError::InvalidMint));
    }
    if !keys_equal(&pool.vault, &roles.vault.key) {
        return Err(ProcessError::Stake(StakeError::InvalidPda));
    }
    let current_value: u64 = match pool.total_pool_value() {
        Some(v) => v,
        None => 0,
    };
    if exceeds_cap(current_value, amount, pool.deposit_cap) {
        return Err(ProcessError::Stake(StakeError::DepositCapExceeded));
    }
    match verify_token_program(&roles.token_program.key) {
        Ok(()) => {},
        Err(e) => { return Err(e); },
    }
    match pool.calc_lp_for_deposit(amount) {
        None => Err(ProcessError::Stake(StakeError::Overflow)),
        Some(lp) => {
            if lp == 0 {
                Err(ProcessError::Stake(StakeError::ZeroAmount))
            } else {
                Ok(lp)
            }
        },
    }
}

/// Checks that the deposit record passed is the one derived for the user
/// in the pool, and returns its bump; `InvalidPda` where it is not.
pub fn check_deposit_record(program_id: &[u8; 32], roles: &DepositAccounts) -> (checked: Result<
    u8,
    ProcessError,
>)
    ensures
        checked == match bump_for(
            deposit_pda(program_id@, roles.pool_pda.key@, roles.user.key@),
            roles.deposit_pda.key@,
        ) {
            Some(bump) => Ok::<u8, ProcessError>(bump),
            None => Err::<u8, ProcessError>(ProcessError::Stake(StakeError::InvalidPda)),
        },
{
    let derived = derive_deposit_pda(program_id, &roles.pool_pda.key, &roles.user.key);
    match derived_bump(derived, &roles.deposit_pda.key) {
        Some(bump) => Ok(bump),
        None => Err(ProcessError::Stake(StakeError::InvalidPda)),
    }
}

/// What `check_withdraw_pool` returns: the first of these that fails. The
/// amount is not zero; the user signed; the pool is initialized; the LP
/// mint and the vault are the pool's; and the token program is the SPL
/// Token program.
pub open spec fn withdraw_pool_outcome(pool: StakePool, roles: WithdrawAccounts, lp_amount: u64) -> Result<
    (),
    ProcessError,
> {
    if lp_amount == 0 {
        Err(ProcessError::Stake(StakeError::ZeroAmount))
    } else if !roles.user.is_signer {
        Err(ProcessError::MissingRequiredSignature)
    } else if pool.is_initialized != 1 {
        Err(ProcessError::Stake(StakeError::NotInitialized))
    } else if pool.lp_mint@ != roles.lp_mint.key@ {
        Err(ProcessError::Stake(StakeError::InvalidMint))
    } else if pool.vault@ != roles.vault.key@ {
        Err(ProcessError::Stake(StakeError::InvalidPda))
    } else if roles.token_program.key@ != spl_token_id() {
        Err(ProcessError::IncorrectProgramId)
    } else {
        Ok(())
    }
}

/// Checks what a withdrawal asks of the pool and of its accounts, before
/// the deposit record and the clock are read.
pub fn check_withdraw_pool(pool: &StakePool, roles: &WithdrawAccounts, lp_amount: u64) -> (checked:
    Result<(), ProcessError>)
    ensures
        checked == withdraw_pool_outcome(*pool, *roles, lp_amount),
{
    if lp_amount == 0 {
        return Err(ProcessError::Stake(StakeError::ZeroAmount));
    }
    if !roles.user.is_signer {
        return Err(ProcessError::MissingRequiredSignature);
    }
    if pool.is_initialized != 1 {
        return Err(ProcessError::Stake(StakeError::NotInitialized));
    }
    if !keys_equal(&pool.lp_mint, &roles.lp_mint.key) {
        return Err(ProcessError::Stake(StakeError::InvalidMint));
    }
    if !keys_equal(&pool.vault, &roles.vault.key) {
        return Err(ProcessError::Stake(StakeError::InvalidPda));
    }
    verify_token_program(&roles.token_program.key)
}

/// What `check_withdraw` returns: the collateral to pay out, or the first
/// of these that fails. All of `withdraw_pool_outcome`; the deposit record
/// is initialized and is this user's in this pool; the cooldown since the
/// last deposit has passed at `slot`; the record holds the LP tokens; the
/// burn can be priced; and it pays out at least one unit.
pub open spec fn withdraw_outcome(
    pool: StakePool,
    record: StakeDeposit,
    roles: WithdrawAccounts,
    lp_amount: u64,
    slot: u64,
) -> Result<u64, ProcessError> {
    match withdraw_pool_outcome(pool, roles, lp_amount) {
        Err(e) => Err(e),
        Ok(_) => if record.is_initialized != 1 || record.user@ != roles.user.key@ || record.pool@
            != roles.pool_pda.key@ {
            Err(ProcessError::Stake(StakeError::Unauthorized))
        } else if slot < cooldown_end(record.last_deposit_slot as int, pool.cooldown_slots as int) {
            Err(ProcessError::Stake(StakeError::CooldownNotElapsed))
        } else if lp_amount > record.lp_amount {
            Err(ProcessError::Stake(StakeError::InsufficientLpTokens))
        } else {
            match pool.value() {
                None => Err(ProcessError::Stake(StakeError::Overflow)),
                Some(value) => match collateral_for_withdraw(
                    pool.total_lp_supply,
                    value,
                    lp_amount,
                ) {
                    None => Err(ProcessError::Stake(StakeError::Overflow)),
                    Some(collateral) => if collateral == 0 {
                        Err(ProcessError::Stake(StakeError::ZeroAmount))
                    } else {
                        Ok(collateral)
                    },
                },
            }
        },
    }
}

/// Checks a withdrawal of `lp_amount` LP tokens at `slot` and prices it:
/// returns the collateral to pay out.
pub fn check_withdraw(
    pool: &StakePool,
    record: &StakeDeposit,
    roles: &WithdrawAccounts,
    lp_amount: u64,
    slot: u64,
) -> (checked: Result<u64, ProcessError>)
    ensures
        checked == withdraw_outcome(*pool, *record, *roles, lp_amount, slot),
        checked matches Ok(collateral) ==> collateral > 0 && collateral * pool.total_lp_supply
            <= lp_amount * pool.value()->0,
{
    match check_withdraw_pool(pool, roles, lp_amount) {
        Ok(()) => {},
        Err(e) => { return Err(e); },
    }
    if record.is_initialized != 1 || !keys_equal(&record.user, &roles.user.key) || !keys_equal(
        &record.pool,
        &roles.pool_pda.key,
    ) {
        return Err(ProcessError::Stake(StakeError::Unauthorized));
    }
    if !record.cooldown_elapsed(pool.cooldown_slots, slot) {
        return Err(ProcessError::Stake(StakeError::CooldownNotElapsed));
    }
    if lp_amount > record.lp_amount {
        return Err(ProcessError::Stake(StakeError::InsufficientLpTokens));
    }
    match pool.calc_collateral_for_withdraw(lp_amount) {
        None => Err(ProcessError::Stake(StakeError::Overflow)),
        Some(collateral) => {
            if collateral == 0 {
                Err(ProcessError::Stake(StakeError::ZeroAmount))
            } else {
                Ok(collateral)
            }
        },
    }
}

/// What `check_flush` returns: the bump of the vault authority, or the
/// first of these that fails. The amount is not zero; the caller signed;
/// the pool is initialized; the caller is the pool's admin; the slab, the
/// vault and the wrapper program are the pool's; the pool covers the
/// amount; and the vault authority is the address derived for the pool.
pub open spec fn flush_outcome(
    program_id: Seq<u8>,
    pool: StakePool,
    roles: FlushAccounts,
    amount: u64,
) -> Result<u8, ProcessError> {
    if amount == 0 {
        Err(ProcessError::Stake(StakeError::ZeroAmount))
    } else if !roles.caller.is_signer {
        Err(ProcessError::MissingRequiredSignature)
    } else if pool.is_initialized != 1 {
        Err(ProcessError::Stake(StakeError::NotInitialized))
    } else if pool.admin@ != roles.caller.key@ {
        Err(ProcessError::Stake(StakeError::Unauthorized))
    } else if pool.slab@ != roles.slab.key@ {
        Err(ProcessError::Stake(StakeError::InvalidPda))
    } else if pool.vault@ != roles.vault.key@ {
        Err(ProcessError::Stake(StakeError::InvalidPda))
    } else if pool.percolator_program@ != roles.percolator_program.key@ {
        Err(ProcessError::Stake(StakeError::InvalidPercolatorProgram))
    } else {
        match pool.flushable() {
            None => Err(ProcessError::Stake(StakeError::Overflow)),
            Some(available) => if amount > available {
                Err(ProcessError::InsufficientFunds)
            } else {
                match bump_for(
                    vault_authority_pda(program_id, roles.pool_pda.key@),
                    roles.vault_auth.key@,
                ) {
                    Some(bump) => Ok(bump),
                    None => Err(ProcessError::Stake(StakeError::InvalidPda)),
                }
            },
        }
    }
}

/// Checks that `amount` may go from the vault to the wrapper's insurance
/// fund, and returns the bump with which the vault authority signs. Only
/// the pool admin may flush: anyone else could lock every depositor's
/// withdrawal until the market resolves.
pub fn check_flush(program_id: &[u8; 32], pool: &StakePool, roles: &FlushAccounts, amount: u64) -> (checked:
    Result<u8, ProcessError>)
    ensures
        checked == flush_outcome(program_id@, *pool, *roles, amount),
{
    if amount == 0 {
        return Err(ProcessError::Stake(StakeError::ZeroAmount));
    }
    if !roles.caller.is_signer {
        return Err(ProcessError::MissingRequiredSignature);
    }
    if pool.is_initialized != 1 {
        return Err(ProcessError::Stake(StakeError::NotInitialized));
    }
    if !keys_equal(&pool.admin, &roles.caller.key) {
        return Err(ProcessError::Stake(StakeError::Unauthorized));
    }
    if !keys_equal(&pool.slab, &roles.slab.key) {
        return Err(ProcessError::Stake(StakeError::InvalidPda));
    }
    if !keys_equal(&pool.vault, &roles.vault.key) {
        return Err(ProcessError::Stake(StakeError::InvalidPda));
    }
    if !keys_equal(&pool.percolator_program, &roles.percolator_program.key) {
        return Err(ProcessError::Stake(StakeError::InvalidPercolatorProgram));
    }
    match pool.check_flush(amount) {
        Ok(()) => {},
        Err(e) => { return Err(e); },
    }
    let derived = derive_vault_authority(program_id, &roles.pool_pda.key);
    match derived_bump(derived, &roles.vault_auth.key) {
        Some(bump) => Ok(bump),
        None => Err(ProcessError::Stake(StakeError::InvalidPda)),
    }
}

/// What `check_update_config` returns: the first of these that fails. The
/// admin signed; the pool is initialized; and the admin is the pool's.
pub open spec fn update_config_outcome(pool: StakePool, roles: ConfigAccounts) -> Result<
    (),
    ProcessError,
> {
    if !roles.admin.is_signer {
        Err(ProcessError::MissingRequiredSignature)
    } else if pool.is_initialized != 1 {
        Err(ProcessError::Stake(StakeError::NotInitialized))
    } else if pool.admin@ != roles.admin.key@ {
        Err(ProcessError::Stake(StakeError::Unauthorized))
    } else {
        Ok(())
    }
}

/// Checks that the configuration of a pool may be changed.
pub fn check_update_config(pool: &StakePool, roles: &ConfigAccounts) -> (checked: Result<
    (),
    ProcessError,
>)
    ensures
        checked == update_config_outcome(*pool, *roles),
{
    if !roles.admin.is_signer {
        return Err(ProcessError::MissingRequiredSignature);
    }
    if pool.is_initialized != 1 {
        return Err(ProcessError::Stake(StakeError::NotInitialized));
    }
    if !keys_equal(&pool.admin, &roles.admin.key) {
        return Err(ProcessError::Stake(StakeError::Unauthorized));
    }
    Ok(())
}

/// What `check_transfer_admin` returns: the first of these that fails. The
/// admin signed; the pool is initialized; the admin is the pool's; the
/// wrapper's admin was not transferred before; the slab and the wrapper
/// program are the pool's; and the pool account is the address derived for
/// the slab.
pub open spec fn transfer_admin_outcome(program_id: Seq<u8>, pool: StakePool, roles: AdminAccounts) -> Result<
    (),
    ProcessError,
> {
    if !roles.admin.is_signer {
        Err(ProcessError::MissingRequiredSignature)
    } else if pool.is_initialized != 1 {
        Err(ProcessError::Stake(StakeError::NotInitialized))
    } else if pool.admin@ != roles.admin.key@ {
        Err(ProcessError::Stake(StakeError::Unauthorized))
    } else if pool.admin_transferred == 1 {
        Err(ProcessError::Stake(StakeError::AdminAlreadyTransferred))
    } else if pool.slab@ != roles.slab.key@ {
        Err(ProcessError::Stake(StakeError::InvalidPda))
    } else if pool.percolator_program@ != roles.percolator_program.key@ {
        Err(ProcessError::Stake(StakeError::InvalidPercolatorProgram))
    } else {
        match bump_for(pool_pda(program_id, roles.slab.key@), roles.pool_pda.key@) {
            Some(_) => Ok(()),
            None => Err(ProcessError::Stake(StakeError::InvalidPda)),
        }
    }
}

/// Checks that the wrapper's admin may be handed to the pool address. The
/// caller must be the pool's admin, whoever the wrapper's admin is.
pub fn check_transfer_admin(program_id: &[u8; 32], pool: &StakePool, roles: &AdminAccounts) -> (checked:
    Result<(), ProcessError>)
    ensures
        checked == transfer_admin_outcome(program_id@, *pool, *roles),
{
    if !roles.admin.is_signer {
        return Err(ProcessError::MissingRequiredSignature);
    }
    if pool.is_initialized != 1 {
        return Err(ProcessError::Stake(StakeError::NotInitialized));
    }
    if !keys_equal(&pool.admin, &roles.admin.key) {
        return Err(ProcessError::Stake(StakeError::Unauthorized));
    }
    if pool.admin_transferred == 1 {
        return Err(ProcessError::Stake(StakeError::AdminAlreadyTransferred));
    }
    if !keys_equal(&pool.slab, &roles.slab.key) {
        return Err(ProcessError::Stake(StakeError::InvalidPda));
    }
    if !keys_equal(&pool.percolator_program, &roles.percolator_program.key) {
        return Err(ProcessError::Stake(StakeError::InvalidPercolatorProgram));
    }
    let derived = derive_pool_pda(program_id, &roles.slab.key);
    match derived_bump(derived, &roles.pool_pda.key) {
        Some(_) => Ok(()),
        None => Err(ProcessError::Stake(StakeError::InvalidPda)),
    }
}

/// What `check_withdraw_insurance` returns: the bump of the vault
/// authority, or the first failure of `admin_cpi_outcome`, or
/// `InvalidArgument` where the vault authority is not the address derived
/// for the pool.
pub open spec fn withdraw_insurance_outcome(
    program_id: Seq<u8>,
    pool: StakePool,
    roles: WithdrawInsuranceAccounts,
) -> Result<u8, ProcessError> {
    match admin_cpi_outcome(program_id, pool, roles.admin_roles()) {
        Err(e) => Err(e),
        Ok(_) => match bump_for(
            vault_authority_pda(program_id, roles.pool_pda.key@),
            roles.vault_auth.key@,
        ) {
            Some(bump) => Ok(bump),
            None => Err(ProcessError::InvalidArgument),
        },
    }
}

/// Checks that insurance may be brought back from the wrapper, and returns
/// the bump with which the vault authority signs.
pub fn check_withdraw_insurance(
    program_id: &[u8; 32],
    pool: &StakePool,
    roles: &WithdrawInsuranceAccounts,
) -> (checked: Result<u8, ProcessError>)
    ensures
        checked == withdraw_insurance_outcome(program_id@, *pool, *roles),
{
    let admin_roles = AdminAccounts {
        admin: roles.admin,
        pool_pda: roles.pool_pda,
        slab: roles.slab,
        percolator_program: roles.percolator_program,
    };
    match validate_admin_cpi(program_id, pool, &admin_roles) {
        Ok(_) => {},
        Err(e) => { return Err(e); },
    }
    let derived = derive_vault_authority(program_id, &roles.pool_pda.key);
    match derived_bump(derived, &roles.vault_auth.key) {
        Some(bump) => Ok(bump),
        None => Err(ProcessError::InvalidArgument),
    }
}

} // verus!
