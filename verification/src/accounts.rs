//! The accounts each instruction takes, by role.
//!
//! An instruction names its accounts by position. Each `parse` checks that
//! enough accounts were passed and gives every position its role; accounts
//! beyond the last role are ignored.

use vstd::prelude::*;
use crate::error::ProcessError;

verus! {

/// What a handler sees of an account: its key, whether it signed the
/// transaction, and whether it holds no data yet.
#[derive(Debug, Clone, Copy)]
pub struct AccountView {
    pub key: [u8; 32],
    pub is_signer: bool,
    pub data_is_empty: bool,
}

/// Accounts of `InitPool`.
#[derive(Debug, Clone, Copy)]
pub struct InitPoolAccounts {
    /// Pays the rent, signs, and becomes the pool admin.
    pub admin: AccountView,
    /// The slab (market) the pool is for.
    pub slab: AccountView,
    /// The pool, to be created.
    pub pool_pda: AccountView,
    /// The LP mint, to be created.
    pub lp_mint: AccountView,
    /// The vault token account, to be created.
    pub vault: AccountView,
    /// The vault authority.
    pub vault_auth: AccountView,
    /// The collateral mint.
    pub collateral_mint: AccountView,
    /// The wrapper program.
    pub percolator_program: AccountView,
    /// The token program.
    pub token_program: AccountView,
    /// The system program.
    pub system_program: AccountView,
    /// The rent sysvar.
    pub rent_sysvar: AccountView,
}

/// Accounts of `Deposit`.
#[derive(Debug, Clone, Copy)]
pub struct DepositAccounts {
    /// The depositing user, who signs.
    pub user: AccountView,
    /// The pool.
    pub pool_pda: AccountView,
    /// The user's collateral token account, the source.
    pub user_ata: AccountView,
    /// The pool's vault, the destination.
    pub vault: AccountView,
    /// The LP mint.
    pub lp_mint: AccountView,
    /// The user's LP token account.
    pub user_lp_ata: AccountView,
    /// The vault authority, which mints.
    pub vault_auth: AccountView,
    /// The user's deposit record, created if needed.
    pub deposit_pda: AccountView,
    /// The token program.
    pub token_program: AccountView,
    /// The clock sysvar.
    pub clock_sysvar: AccountView,
    /// The system program.
    pub system_program: AccountView,
}

/// Accounts of `Withdraw`.
#[derive(Debug, Clone, Copy)]
pub struct WithdrawAccounts {
    /// The withdrawing user, who signs.
    pub user: AccountView,
    /// The pool.
    pub pool_pda: AccountView,
    /// The user's LP token account, from which tokens are burned.
    pub user_lp_ata: AccountView,
    /// The LP mint.
    pub lp_mint: AccountView,
    /// The pool's vault, the source of collateral.
    pub vault: AccountView,
    /// The user's collateral token account, the destination.
    pub user_ata: AccountView,
    /// The vault authority, which transfers.
    pub vault_auth: AccountView,
    /// The user's deposit record.
    pub deposit_pda: AccountView,
    /// The token program.
    pub token_program: AccountView,
    /// The clock sysvar.
    pub clock_sysvar: AccountView,
}

/// Accounts of `FlushToInsurance`.
#[derive(Debug, Clone, Copy)]
pub struct FlushAccounts {
    /// The caller, who signs and must be the pool admin.
    pub caller: AccountView,
    /// The pool.
    pub pool_pda: AccountView,
    /// The pool's vault, the source.
    pub vault: AccountView,
    /// The vault authority, which signs the call into the wrapper.
    pub vault_auth: AccountView,
    /// The slab.
    pub slab: AccountView,
    /// The wrapper's vault, the destination.
    pub wrapper_vault: AccountView,
    /// The wrapper program.
    pub percolator_program: AccountView,
    /// The token program.
    pub token_program: AccountView,
}

/// Accounts of `UpdateConfig`.
#[derive(Debug, Clone, Copy)]
pub struct ConfigAccounts {
    /// The pool admin, who signs.
    pub admin: AccountView,
    /// The pool.
    pub pool_pda: AccountView,
}

/// Accounts of `TransferAdmin` and of the instructions that forward an
/// admin setting to the wrapper.
#[derive(Debug, Clone, Copy)]
pub struct AdminAccounts {
    /// The pool admin, who signs.
    pub admin: AccountView,
    /// The pool, which is the wrapper's admin once transferred.
    pub pool_pda: AccountView,
    /// The slab.
    pub slab: AccountView,
    /// The wrapper program.
    pub percolator_program: AccountView,
}

/// Accounts of `AdminWithdrawInsurance`.
#[derive(Debug, Clone, Copy)]
pub struct WithdrawInsuranceAccounts {
    /// The pool admin, who signs.
    pub admin: AccountView,
    /// The pool.
    pub pool_pda: AccountView,
    /// The slab.
    pub slab: AccountView,
    /// The vault authority, which signs the call into the wrapper.
    pub vault_auth: AccountView,
    /// The pool's vault, which receives the insurance.
    pub stake_vault: AccountView,
    /// The wrapper's vault, the source.
    pub wrapper_vault: AccountView,
    /// The wrapper's vault authority.
    pub wrapper_vault_pda: AccountView,
    /// The wrapper program.
    pub percolator_program: AccountView,
    /// The token program.
    pub token_program: AccountView,
    /// The clock sysvar.
    pub clock: AccountView,
}

impl InitPoolAccounts {
    /// The accounts by role.
    pub open spec fn of(accounts: Seq<AccountView>) -> InitPoolAccounts {
        InitPoolAccounts {
            admin: accounts[0],
            slab: accounts[1],
            pool_pda: accounts[2],
            lp_mint: accounts[3],
            vault: accounts[4],
            vault_auth: accounts[5],
            collateral_mint: accounts[6],
            percolator_program: accounts[7],
            token_program: accounts[8],
            system_program: accounts[9],
            rent_sysvar: accounts[10],
        }
    }

    /// Gives the first eleven accounts their roles; `NotEnoughAccountKeys`
    /// where there are fewer.
    pub fn parse(accounts: &[AccountView]) -> (parsed: Result<InitPoolAccounts, ProcessError>)
        ensures
            accounts@.len() >= 11 <==> parsed is Ok,
            parsed matches Ok(roles) ==> roles == Self::of(accounts@),
            parsed matches Err(e) ==> e == ProcessError::NotEnoughAccountKeys,
    {
        if accounts.len() < 11 {
            return Err(ProcessError::NotEnoughAccountKeys);
        }
        Ok(
            InitPoolAccounts {
                admin: accounts[0],
                slab: accounts[1],
                pool_pda: accounts[2],
                lp_mint: accounts[3],
                vault: accounts[4],
                vault_auth: accounts[5],
                collateral_mint: accounts[6],
                percolator_program: accounts[7],
                token_program: accounts[8],
                system_program: accounts[9],
                rent_sysvar: accounts[10],
            },
        )
    }
}

impl DepositAccounts {
    /// The accounts by role.
    pub open spec fn of(accounts: Seq<AccountView>) -> DepositAccounts {
        DepositAccounts {
            user: accounts[0],
            pool_pda: accounts[1],
            user_ata: accounts[2],
            vault: accounts[3],
            lp_mint: accounts[4],
            user_lp_ata: accounts[5],
            vault_auth: accounts[6],
            deposit_pda: accounts[7],
            token_program: accounts[8],
            clock_sysvar: accounts[9],
            system_program: accounts[10],
        }
    }

    /// Gives the first eleven accounts their roles; `NotEnoughAccountKeys`
    /// where there are fewer.
    pub fn parse(accounts: &[AccountView]) -> (parsed: Result<DepositAccounts, ProcessError>)
        ensures
            accounts@.len() >= 11 <==> parsed is Ok,
            parsed matches Ok(roles) ==> roles == Self::of(accounts@),
            parsed matches Err(e) ==> e == ProcessError::NotEnoughAccountKeys,
    {
        if accounts.len() < 11 {
            return Err(ProcessError::NotEnoughAccountKeys);
        }
        Ok(
            DepositAccounts {
                user: accounts[0],
                pool_pda: accounts[1],
                user_ata: accounts[2],
                vault: accounts[3],
                lp_mint: accounts[4],
                user_lp_ata: accounts[5],
                vault_auth: accounts[6],
                deposit_pda: accounts[7],
                token_program: accounts[8],
                clock_sysvar: accounts[9],
                system_program: accounts[10],
            },
        )
    }
}

impl WithdrawAccounts {
    /// The accounts by role.
    pub open spec fn of(accounts: Seq<AccountView>) -> WithdrawAccounts {
        WithdrawAccounts {
            user: accounts[0],
            pool_pda: accounts[1],
            user_lp_ata: accounts[2],
            lp_mint: accounts[3],
            vault: accounts[4],
            user_ata: accounts[5],
            vault_auth: accounts[6],
            deposit_pda: accounts[7],
            token_program: accounts[8],
            clock_sysvar: accounts[9],
        }
    }

    /// Gives the first ten accounts their roles; `NotEnoughAccountKeys`
    /// where there are fewer.
    pub fn parse(accounts: &[AccountView]) -> (parsed: Result<WithdrawAccounts, ProcessError>)
        ensures
            accounts@.len() >= 10 <==> parsed is Ok,
            parsed matches Ok(roles) ==> roles == Self::of(accounts@),
            parsed matches Err(e) ==> e == ProcessError::NotEnoughAccountKeys,
    {
        if accounts.len() < 10 {
            return Err(ProcessError::NotEnoughAccountKeys);
        }
        Ok(
            WithdrawAccounts {
                user: accounts[0],
                pool_pda: accounts[1],
                user_lp_ata: accounts[2],
                lp_mint: accounts[3],
                vault: accounts[4],
                user_ata: accounts[5],
                vault_auth: accounts[6],
                deposit_pda: accounts[7],
                token_program: accounts[8],
                clock_sysvar: accounts[9],
            },
        )
    }
}

impl FlushAccounts {
    /// The accounts by role.
    pub open spec fn of(accounts: Seq<AccountView>) -> FlushAccounts {
        FlushAccounts {
            caller: accounts[0],
            pool_pda: accounts[1],
            vault: accounts[2],
            vault_auth: accounts[3],
            slab: accounts[4],
            wrapper_vault: accounts[5],
            percolator_program: accounts[6],
            token_program: accounts[7],
        }
    }

    /// Gives the first eight accounts their roles; `NotEnoughAccountKeys`
    /// where there are fewer.
    pub fn parse(accounts: &[AccountView]) -> (parsed: Result<FlushAccounts, ProcessError>)
        ensures
            accounts@.len() >= 8 <==> parsed is Ok,
            parsed matches Ok(roles) ==> roles == Self::of(accounts@),
            parsed matches Err(e) ==> e == ProcessError::NotEnoughAccountKeys,
    {
        if accounts.len() < 8 {
            return Err(ProcessError::NotEnoughAccountKeys);
        }
        Ok(
            FlushAccounts {
                caller: accounts[0],
                pool_pda: accounts[1],
                vault: accounts[2],
                vault_auth: accounts[3],
                slab: accounts[4],
                wrapper_vault: accounts[5],
                percolator_program: accounts[6],
                token_program: accounts[7],
            },
        )
    }
}

impl ConfigAccounts {
    /// The accounts by role.
    pub open spec fn of(accounts: Seq<AccountView>) -> ConfigAccounts {
        ConfigAccounts { admin: accounts[0], pool_pda: accounts[1] }
    }

    /// Gives the first two accounts their roles; `NotEnoughAccountKeys`
    /// where there are fewer.
    pub fn parse(accounts: &[AccountView]) -> (parsed: Result<ConfigAccounts, ProcessError>)
        ensures
            accounts@.len() >= 2 <==> parsed is Ok,
            parsed matches Ok(roles) ==> roles == Self::of(accounts@),
            parsed matches Err(e) ==> e == ProcessError::NotEnoughAccountKeys,
    {
        if accounts.len() < 2 {
            return Err(ProcessError::NotEnoughAccountKeys);
        }
        Ok(ConfigAccounts { admin: accounts[0], pool_pda: accounts[1] })
    }
}

impl AdminAccounts {
    /// The accounts by role.
    pub open spec fn of(accounts: Seq<AccountView>) -> AdminAccounts {
        AdminAccounts {
            admin: accounts[0],
            pool_pda: accounts[1],
            slab: accounts[2],
            percolator_program: accounts[3],
        }
    }

    /// Gives the first four accounts their roles; `NotEnoughAccountKeys`
    /// where there are fewer.
    pub fn parse(accounts: &[AccountView]) -> (parsed: Result<AdminAccounts, ProcessError>)
        ensures
            accounts@.len() >= 4 <==> parsed is Ok,
            parsed matches Ok(roles) ==> roles == Self::of(accounts@),
            parsed matches Err(e) ==> e == ProcessError::NotEnoughAccountKeys,
    {
        if accounts.len() < 4 {
            return Err(ProcessError::NotEnoughAccountKeys);
        }
        Ok(
            AdminAccounts {
                admin: accounts[0],
                pool_pda: accounts[1],
                slab: accounts[2],
                percolator_program: accounts[3],
            },
        )
    }
}

impl WithdrawInsuranceAccounts {
    /// The accounts by role.
    pub open spec fn of(accounts: Seq<AccountView>) -> WithdrawInsuranceAccounts {
        WithdrawInsuranceAccounts {
            admin: accounts[0],
            pool_pda: accounts[1],
            slab: accounts[2],
            vault_auth: accounts[3],
            stake_vault: accounts[4],
            wrapper_vault: accounts[5],
            wrapper_vault_pda: accounts[6],
            percolator_program: accounts[7],
            token_program: accounts[8],
            clock: accounts[9],
        }
    }

    /// Gives the first ten accounts their roles; `NotEnoughAccountKeys`
    /// where there are fewer.
    pub fn parse(accounts: &[AccountView]) -> (parsed: Result<
        WithdrawInsuranceAccounts,
        ProcessError,
    >)
        ensures
            accounts@.len() >= 10 <==> parsed is Ok,
            parsed matches Ok(roles) ==> roles == Self::of(accounts@),
            parsed matches Err(e) ==> e == ProcessError::NotEnoughAccountKeys,
    {
        if accounts.len() < 10 {
            return Err(ProcessError::NotEnoughAccountKeys);
        }
        Ok(
            WithdrawInsuranceAccounts {
                admin: accounts[0],
                pool_pda: accounts[1],
                slab: accounts[2],
                vault_auth: accounts[3],
                stake_vault: accounts[4],
                wrapper_vault: accounts[5],
                wrapper_vault_pda: accounts[6],
                percolator_program: accounts[7],
                token_program: accounts[8],
                clock: accounts[9],
            },
        )
    }

    /// The four accounts that an admin instruction checks.
    pub open spec fn admin_roles(self) -> AdminAccounts {
        AdminAccounts {
            admin: self.admin,
            pool_pda: self.pool_pda,
            slab: self.slab,
            percolator_program: self.percolator_program,
        }
    }
}

} // verus!
