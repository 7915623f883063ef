//! Instructions sent to the percolator wrapper program.
//!
//! The wrapper's instructions are built by hand: one tag byte, followed by
//! the fields, integers little-endian. Each builder returns the instruction
//! as plain data; sending it, and signing for a program address, is left to
//! the caller.

use vstd::prelude::*;
use crate::bytes::{push_key, push_u128_le, push_u16_le, push_u64_le, u128_to_le, u16_to_le, u64_to_le};

verus! {

/// Tag of the wrapper's `TopUpInsurance`.
pub const TAG_TOP_UP_INSURANCE: u8 = 9;

/// Tag of the wrapper's `SetRiskThreshold`.
pub const TAG_SET_RISK_THRESHOLD: u8 = 11;

/// Tag of the wrapper's `UpdateAdmin`.
pub const TAG_UPDATE_ADMIN: u8 = 12;

/// Tag of the wrapper's `SetMaintenanceFee`.
pub const TAG_SET_MAINTENANCE_FEE: u8 = 15;

/// Tag of the wrapper's `SetOracleAuthority`.
pub const TAG_SET_ORACLE_AUTHORITY: u8 = 16;

/// Tag of the wrapper's `SetOraclePriceCap`.
pub const TAG_SET_ORACLE_PRICE_CAP: u8 = 18;

/// Tag of the wrapper's `ResolveMarket`.
pub const TAG_RESOLVE_MARKET: u8 = 19;

/// Tag of the wrapper's `WithdrawInsurance`.
pub const TAG_WITHDRAW_INSURANCE: u8 = 20;

/// Tag of the wrapper's `SetInsuranceWithdrawPolicy`. Tag 21 is the
/// wrapper's `AdminForceCloseAccount`, which the staking program never
/// sends.
pub const TAG_SET_INSURANCE_WITHDRAW_POLICY: u8 = 22;

/// Tag of the wrapper's `WithdrawInsuranceLimited`.
pub const TAG_WITHDRAW_INSURANCE_LIMITED: u8 = 23;

/// One account of an instruction: its key, whether it signs, and whether
/// the instruction may write to it.
#[derive(Debug, Clone, Copy)]
pub struct AccountMeta {
    pub pubkey: [u8; 32],
    pub is_signer: bool,
    pub is_writable: bool,
}

/// An instruction for another program: the program, the accounts in the
/// order the program expects them, and the data.
#[derive(Debug)]
pub struct Instruction {
    pub program_id: [u8; 32],
    pub accounts: Vec<AccountMeta>,
    pub data: Vec<u8>,
}

/// A writable account.
pub open spec fn writable(pubkey: [u8; 32], is_signer: bool) -> AccountMeta {
    AccountMeta { pubkey, is_signer, is_writable: true }
}

/// A read-only account.
pub open spec fn readonly(pubkey: [u8; 32], is_signer: bool) -> AccountMeta {
    AccountMeta { pubkey, is_signer, is_writable: false }
}

/// The two accounts of an admin instruction: the admin, who signs, and the
/// slab, which is written.
pub open spec fn admin_accounts(admin: [u8; 32], slab: [u8; 32]) -> Seq<AccountMeta> {
    seq![readonly(admin, true), writable(slab, false)]
}

impl AccountMeta {
    /// A writable account.
    pub fn new(pubkey: [u8; 32], is_signer: bool) -> (meta: AccountMeta)
        ensures
            meta == writable(pubkey, is_signer),
    {
        AccountMeta { pubkey, is_signer, is_writable: true }
    }

    /// A read-only account.
    pub fn new_readonly(pubkey: [u8; 32], is_signer: bool) -> (meta: AccountMeta)
        ensures
            meta == readonly(pubkey, is_signer),
    {
        AccountMeta { pubkey, is_signer, is_writable: false }
    }
}

/// The accounts of an admin instruction, in order.
fn admin_account_list(admin: &[u8; 32], slab: &[u8; 32]) -> (accounts: Vec<AccountMeta>)
    ensures
        accounts@ == admin_accounts(*admin, *slab),
{
    let mut accounts: Vec<AccountMeta> = Vec::new();
    accounts.push(AccountMeta::new_readonly(*admin, true));
    accounts.push(AccountMeta::new(*slab, false));
    assert(accounts@ =~= admin_accounts(*admin, *slab));
    accounts
}

/// Data of a tag followed by one 64-bit amount.
fn tagged_u64(tag: u8, amount: u64) -> (data: Vec<u8>)
    ensures
        data@ == seq![tag] + u64_to_le(amount),
        data@.len() == 9,
{
    let mut data: Vec<u8> = Vec::with_capacity(9);
    data.push(tag);
    assert(data@ =~= seq![tag]);
    push_u64_le(&mut data, amount);
    data
}

/// Data of a tag followed by one 128-bit amount.
fn tagged_u128(tag: u8, amount: u128) -> (data: Vec<u8>)
    ensures
        data@ == seq![tag] + u128_to_le(amount),
        data@.len() == 17,
{
    let mut data: Vec<u8> = Vec::with_capacity(17);
    data.push(tag);
    assert(data@ =~= seq![tag]);
    push_u128_le(&mut data, amount);
    data
}

/// Data of a tag followed by one key.
fn tagged_key(tag: u8, key: &[u8; 32]) -> (data: Vec<u8>)
    ensures
        data@ == seq![tag] + key@,
        data@.len() == 33,
{
    let mut data: Vec<u8> = Vec::with_capacity(33);
    data.push(tag);
    assert(data@ =~= seq![tag]);
    push_key(&mut data, key);
    data
}

/// Data of `TopUpInsurance`: the tag and the amount.
pub fn top_up_insurance_data(amount: u64) -> (data: Vec<u8>)
    ensures
        data@ == seq![9u8] + u64_to_le(amount),
        data@.len() == 9,
{
    tagged_u64(TAG_TOP_UP_INSURANCE, amount)
}

/// Data of `UpdateAdmin`: the tag and the new admin's key.
pub fn update_admin_data(new_admin: &[u8; 32]) -> (data: Vec<u8>)
    ensures
        data@ == seq![12u8] + new_admin@,
        data@.len() == 33,
{
    tagged_key(TAG_UPDATE_ADMIN, new_admin)
}

/// Data of `SetOracleAuthority`: the tag and the new authority's key.
pub fn set_oracle_authority_data(new_authority: &[u8; 32]) -> (data: Vec<u8>)
    ensures
        data@ == seq![16u8] + new_authority@,
        data@.len() == 33,
{
    tagged_key(TAG_SET_ORACLE_AUTHORITY, new_authority)
}

/// Data of `SetRiskThreshold`: the tag and the threshold.
pub fn set_risk_threshold_data(new_threshold: u128) -> (data: Vec<u8>)
    ensures
        data@ == seq![11u8] + u128_to_le(new_threshold),
        data@.len() == 17,
{
    tagged_u128(TAG_SET_RISK_THRESHOLD, new_threshold)
}

/// Data of `SetMaintenanceFee`: the tag and the fee.
pub fn set_maintenance_fee_data(new_fee: u128) -> (data: Vec<u8>)
    ensures
        data@ == seq![15u8] + u128_to_le(new_fee),
        data@.len() == 17,
{
    tagged_u128(TAG_SET_MAINTENANCE_FEE, new_fee)
}

/// Data of `SetOraclePriceCap`: the tag and the greatest change allowed.
pub fn set_oracle_price_cap_data(max_change_e2bps: u64) -> (data: Vec<u8>)
    ensures
        data@ == seq![18u8] + u64_to_le(max_change_e2bps),
        data@.len() == 9,
{
    tagged_u64(TAG_SET_ORACLE_PRICE_CAP, max_change_e2bps)
}

/// Data of `ResolveMarket`: the tag alone.
pub fn resolve_market_data() -> (data: Vec<u8>)
    ensures
        data@ == seq![19u8],
{
    let mut data: Vec<u8> = Vec::with_capacity(1);
    data.push(TAG_RESOLVE_MARKET);
    assert(data@ =~= seq![19u8]);
    data
}

/// Data of `WithdrawInsurance`: the tag alone.
pub fn withdraw_insurance_data() -> (data: Vec<u8>)
    ensures
        data@ == seq![20u8],
{
    let mut data: Vec<u8> = Vec::with_capacity(1);
    data.push(TAG_WITHDRAW_INSURANCE);
    assert(data@ =~= seq![20u8]);
    data
}

/// Data of `SetInsuranceWithdrawPolicy`: the tag, the authority's key, the
/// least withdrawal, the greatest withdrawal in basis points, and the
/// cooldown in slots.
pub fn set_insurance_withdraw_policy_data(
    authority: &[u8; 32],
    min_withdraw_base: u64,
    max_withdraw_bps: u16,
    cooldown_slots: u64,
) -> (data: Vec<u8>)
    ensures
        data@ == seq![22u8] + authority@ + u64_to_le(min_withdraw_base) + u16_to_le(
            max_withdraw_bps,
        ) + u64_to_le(cooldown_slots),
        data@.len() == 51,
{
    let mut data: Vec<u8> = Vec::with_capacity(51);
    data.push(TAG_SET_INSURANCE_WITHDRAW_POLICY);
    assert(data@ =~= seq![22u8]);
    push_key(&mut data, authority);
    push_u64_le(&mut data, min_withdraw_base);
    push_u16_le(&mut data, max_withdraw_bps);
    push_u64_le(&mut data, cooldown_slots);
    data
}

/// Data of `WithdrawInsuranceLimited`: the tag and the amount.
pub fn withdraw_insurance_limited_data(amount: u64) -> (data: Vec<u8>)
    ensures
        data@ == seq![23u8] + u64_to_le(amount),
        data@.len() == 9,
{
    tagged_u64(TAG_WITHDRAW_INSURANCE_LIMITED, amount)
}

/// `TopUpInsurance`: move `amount` from the signer's token account into
/// the wrapper's vault. Anyone may top up; here the vault authority signs
/// and the stake vault is its token account.
pub fn cpi_top_up_insurance(
    percolator_program: &[u8; 32],
    signer: &[u8; 32],
    slab: &[u8; 32],
    signer_ata: &[u8; 32],
    wrapper_vault: &[u8; 32],
    token_program: &[u8; 32],
    amount: u64,
) -> (ix: Instruction)
    ensures
        ix.program_id == *percolator_program,
        ix.accounts@ == seq![
            readonly(*signer, true),
            writable(*slab, false),
            writable(*signer_ata, false),
            writable(*wrapper_vault, false),
            readonly(*token_program, false),
        ],
        ix.data@ == seq![9u8] + u64_to_le(amount),
{
    let mut accounts: Vec<AccountMeta> = Vec::new();
    accounts.push(AccountMeta::new_readonly(*signer, true));
    accounts.push(AccountMeta::new(*slab, false));
    accounts.push(AccountMeta::new(*signer_ata, false));
    accounts.push(AccountMeta::new(*wrapper_vault, false));
    accounts.push(AccountMeta::new_readonly(*token_program, false));
    assert(accounts@ =~= seq![
        readonly(*signer, true),
        writable(*slab, false),
        writable(*signer_ata, false),
        writable(*wrapper_vault, false),
        readonly(*token_program, false),
    ]);
    Instruction { program_id: *percolator_program, accounts, data: top_up_insurance_data(amount) }
}

/// `UpdateAdmin`: the current admin hands the slab to `new_admin`. The
/// current admin signs the outer transaction; no program address signs.
pub fn cpi_update_admin(
    percolator_program: &[u8; 32],
    current_admin: &[u8; 32],
    slab: &[u8; 32],
    new_admin: &[u8; 32],
) -> (ix: Instruction)
    ensures
        ix.program_id == *percolator_program,
        ix.accounts@ == admin_accounts(*current_admin, *slab),
        ix.data@ == seq![12u8] + new_admin@,
{
    Instruction {
        program_id: *percolator_program,
        accounts: admin_account_list(current_admin, slab),
        data: update_admin_data(new_admin),
    }
}

/// `SetOracleAuthority`, signed by the pool address as the slab's admin.
pub fn cpi_set_oracle_authority(
    percolator_program: &[u8; 32],
    admin_pda: &[u8; 32],
    slab: &[u8; 32],
    new_authority: &[u8; 32],
) -> (ix: Instruction)
    ensures
        ix.program_id == *percolator_program,
        ix.accounts@ == admin_accounts(*admin_pda, *slab),
        ix.data@ == seq![16u8] + new_authority@,
{
    Instruction {
        program_id: *percolator_program,
        accounts: admin_account_list(admin_pda, slab),
        data: set_oracle_authority_data(new_authority),
    }
}

/// `SetRiskThreshold`, signed by the pool address as the slab's admin.
pub fn cpi_set_risk_threshold(
    percolator_program: &[u8; 32],
    admin_pda: &[u8; 32],
    slab: &[u8; 32],
    new_threshold: u128,
) -> (ix: Instruction)
    ensures
        ix.program_id == *percolator_program,
        ix.accounts@ == admin_accounts(*admin_pda, *slab),
        ix.data@ == seq![11u8] + u128_to_le(new_threshold),
{
    Instruction {
        program_id: *percolator_program,
        accounts: admin_account_list(admin_pda, slab),
        data: set_risk_threshold_data(new_threshold),
    }
}

/// `SetMaintenanceFee`, signed by the pool address as the slab's admin.
pub fn cpi_set_maintenance_fee(
    percolator_program: &[u8; 32],
    admin_pda: &[u8; 32],
    slab: &[u8; 32],
    new_fee: u128,
) -> (ix: Instruction)
    ensures
        ix.program_id == *percolator_program,
        ix.accounts@ == admin_accounts(*admin_pda, *slab),
        ix.data@ == seq![15u8] + u128_to_le(new_fee),
{
    Instruction {
        program_id: *percolator_program,
        accounts: admin_account_list(admin_pda, slab),
        data: set_maintenance_fee_data(new_fee),
    }
}

/// `SetOraclePriceCap`, signed by the pool address as the slab's admin.
pub fn cpi_set_oracle_price_cap(
    percolator_program: &[u8; 32],
    admin_pda: &[u8; 32],
    slab: &[u8; 32],
    max_change_e2bps: u64,
) -> (ix: Instruction)
    ensures
        ix.program_id == *percolator_program,
        ix.accounts@ == admin_accounts(*admin_pda, *slab),
        ix.data@ == seq![18u8] + u64_to_le(max_change_e2bps),
{
    Instruction {
        program_id: *percolator_program,
        accounts: admin_account_list(admin_pda, slab),
        data: set_oracle_price_cap_data(max_change_e2bps),
    }
}

/// `ResolveMarket`, signed by the pool address as the slab's admin.
pub fn cpi_resolve_market(percolator_program: &[u8; 32], admin_pda: &[u8; 32], slab: &[u8; 32]) -> (ix:
    Instruction)
    ensures
        ix.program_id == *percolator_program,
        ix.accounts@ == admin_accounts(*admin_pda, *slab),
        ix.data@ == seq![19u8],
{
    Instruction {
        program_id: *percolator_program,
        accounts: admin_account_list(admin_pda, slab),
        data: resolve_market_data(),
    }
}

/// `WithdrawInsurance`: the admin takes the whole insurance fund of a
/// resolved market into its token account.
pub fn cpi_withdraw_insurance(
    percolator_program: &[u8; 32],
    admin_pda: &[u8; 32],
    slab: &[u8; 32],
    admin_ata: &[u8; 32],
    wrapper_vault: &[u8; 32],
    token_program: &[u8; 32],
    vault_authority: &[u8; 32],
) -> (ix: Instruction)
    ensures
        ix.program_id == *percolator_program,
        ix.accounts@ == seq![
            readonly(*admin_pda, true),
            writable(*slab, false),
            writable(*admin_ata, false),
            writable(*wrapper_vault, false),
            readonly(*token_program, false),
            readonly(*vault_authority, false),
        ],
        ix.data@ == seq![20u8],
{
    let mut accounts: Vec<AccountMeta> = Vec::new();
    accounts.push(AccountMeta::new_readonly(*admin_pda, true));
    accounts.push(AccountMeta::new(*slab, false));
    accounts.push(AccountMeta::new(*admin_ata, false));
    accounts.push(AccountMeta::new(*wrapper_vault, false));
    accounts.push(AccountMeta::new_readonly(*token_program, false));
    accounts.push(AccountMeta::new_readonly(*vault_authority, false));
    assert(accounts@ =~= seq![
        readonly(*admin_pda, true),
        writable(*slab, false),
        writable(*admin_ata, false),
        writable(*wrapper_vault, false),
        readonly(*token_program, false),
        readonly(*vault_authority, false),
    ]);
    Instruction { program_id: *percolator_program, accounts, data: withdraw_insurance_data() }
}

/// `SetInsuranceWithdrawPolicy`, signed by the pool address as the slab's
/// admin.
pub fn cpi_set_insurance_withdraw_policy(
    percolator_program: &[u8; 32],
    admin_pda: &[u8; 32],
    slab: &[u8; 32],
    authority: &[u8; 32],
    min_withdraw_base: u64,
    max_withdraw_bps: u16,
    cooldown_slots: u64,
) -> (ix: Instruction)
    ensures
        ix.program_id == *percolator_program,
        ix.accounts@ == admin_accounts(*admin_pda, *slab),
        ix.data@ == seq![22u8] + authority@ + u64_to_le(min_withdraw_base) + u16_to_le(
            max_withdraw_bps,
        ) + u64_to_le(cooldown_slots),
{
    Instruction {
        program_id: *percolator_program,
        accounts: admin_account_list(admin_pda, slab),
        data: set_insurance_withdraw_policy_data(
            authority,
            min_withdraw_base,
            max_withdraw_bps,
            cooldown_slots,
        ),
    }
}

/// `WithdrawInsuranceLimited`: the policy authority takes `amount` of the
/// insurance fund into its token account. Here the vault authority is the
/// policy authority and the stake vault is its token account.
pub fn cpi_withdraw_insurance_limited(
    percolator_program: &[u8; 32],
    vault_auth: &[u8; 32],
    slab: &[u8; 32],
    stake_vault: &[u8; 32],
    wrapper_vault: &[u8; 32],
    token_program: &[u8; 32],
    wrapper_vault_pda: &[u8; 32],
    clock: &[u8; 32],
    amount: u64,
) -> (ix: Instruction)
    ensures
        ix.program_id == *percolator_program,
        ix.accounts@ == seq![
            readonly(*vault_auth, true),
            writable(*slab, false),
            writable(*stake_vault, false),
            writable(*wrapper_vault, false),
            readonly(*token_program, false),
            readonly(*wrapper_vault_pda, false),
            readonly(*clock, false),
        ],
        ix.data@ == seq![23u8] + u64_to_le(amount),
{
    let mut accounts: Vec<AccountMeta> = Vec::new();
    accounts.push(AccountMeta::new_readonly(*vault_auth, true));
    accounts.push(AccountMeta::new(*slab, false));
    accounts.push(AccountMeta::new(*stake_vault, false));
    accounts.push(AccountMeta::new(*wrapper_vault, false));
    accounts.push(AccountMeta::new_readonly(*token_program, false));
    accounts.push(AccountMeta::new_readonly(*wrapper_vault_pda, false));
    accounts.push(AccountMeta::new_readonly(*clock, false));
    assert(accounts@ =~= seq![
        readonly(*vault_auth, true),
        writable(*slab, false),
        writable(*stake_vault, false),
        writable(*wrapper_vault, false),
        readonly(*token_program, false),
        readonly(*wrapper_vault_pda, false),
        readonly(*clock, false),
    ]);
    Instruction {
        program_id: *percolator_program,
        accounts,
        data: withdraw_insurance_limited_data(amount),
    }
}

} // verus!
