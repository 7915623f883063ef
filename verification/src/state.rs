//! The pool ledger and the per-depositor record.
//!
//! The ledger keeps lifetime totals that only ever grow; the pool's value
//! is derived from them and never stored. Every update either completes or
//! leaves the ledger as it was.

use vstd::prelude::*;
use crate::error::{ProcessError, StakeError};
use crate::math::{
    calc_collateral_for_withdraw, calc_lp_for_deposit, collateral_for_withdraw, lp_for_deposit,
    pool_value_with_flush, spec_pool_value_with_flush,
};
use crate::policy::{cooldown_elapsed, cooldown_end};
use crate::runtime::{find_program_address, program_address};
use vstd::slice::slice_to_vec;

verus! {

/// State of one stake pool; there is one per slab (market).
///
/// The pool's address also becomes the admin of the wrapper slab, which is
/// how the staking program forwards admin instructions to the wrapper.
#[derive(Debug, Clone, Copy)]
pub struct StakePool {
    /// Whether the pool is initialized (1 = yes, 0 = no).
    pub is_initialized: u8,
    /// Bump seed of the pool address.
    pub bump: u8,
    /// Bump seed of the vault authority address.
    pub vault_authority_bump: u8,
    /// Whether the wrapper's admin has been transferred to the pool (1 = yes).
    pub admin_transferred: u8,
    /// Padding for alignment.
    pub _padding: [u8; 4],
    /// The slab (market) this pool manages.
    pub slab: [u8; 32],
    /// Pool admin: may update the configuration and trigger admin calls.
    pub admin: [u8; 32],
    /// Collateral mint.
    pub collateral_mint: [u8; 32],
    /// LP token mint.
    pub lp_mint: [u8; 32],
    /// Vault holding the deposited collateral.
    pub vault: [u8; 32],
    /// Total collateral deposited by users, over the pool's lifetime.
    pub total_deposited: u64,
    /// Total LP tokens in circulation.
    pub total_lp_supply: u64,
    /// Cooldown in slots between a deposit and a withdrawal.
    pub cooldown_slots: u64,
    /// Maximum pool value after a deposit (0 = uncapped).
    pub deposit_cap: u64,
    /// Total collateral moved from the vault to the wrapper's insurance fund.
    pub total_flushed: u64,
    /// Total collateral returned from the insurance fund.
    pub total_returned: u64,
    /// Total collateral withdrawn by users, over the pool's lifetime.
    pub total_withdrawn: u64,
    /// The wrapper program.
    pub percolator_program: [u8; 32],
    /// Reserved for future use.
    pub _reserved: [u8; 96],
}

/// Size of a stored `StakePool` in bytes.
pub const STAKE_POOL_SIZE: usize = 352;

/// Per-depositor record: the LP tokens a user holds and when they last
/// deposited.
#[derive(Debug, Clone, Copy)]
pub struct StakeDeposit {
    /// Whether this record is initialized.
    pub is_initialized: u8,
    /// Bump seed of the record's address.
    pub bump: u8,
    /// Padding.
    pub _padding: [u8; 6],
    /// The stake pool this record belongs to.
    pub pool: [u8; 32],
    /// The user who deposited.
    pub user: [u8; 32],
    /// Slot of the last deposit; the cooldown starts here.
    pub last_deposit_slot: u64,
    /// LP tokens held by this user.
    pub lp_amount: u64,
    /// Reserved for future use.
    pub _reserved: [u8; 64],
}

/// Size of a stored `StakeDeposit` in bytes.
pub const STAKE_DEPOSIT_SIZE: usize = 152;

impl StakePool {
    /// The pool's redeemable value: `total_deposited - total_withdrawn -
    /// total_flushed + total_returned`, and `None` for a ledger on which a
    /// subtraction goes below zero or the sum leaves 64 bits.
    pub open spec fn value(self) -> Option<u64> {
        spec_pool_value_with_flush(
            self.total_deposited,
            self.total_withdrawn,
            self.total_flushed,
            self.total_returned,
        )
    }

    /// Whether every byte of the pool is zero.
    pub open spec fn is_zeroed(self) -> bool {
        &&& self.is_initialized == 0
        &&& self.bump == 0
        &&& self.vault_authority_bump == 0
        &&& self.admin_transferred == 0
        &&& self._padding@ == Seq::new(4, |i: int| 0u8)
        &&& self.slab@ == Seq::new(32, |i: int| 0u8)
        &&& self.admin@ == Seq::new(32, |i: int| 0u8)
        &&& self.collateral_mint@ == Seq::new(32, |i: int| 0u8)
        &&& self.lp_mint@ == Seq::new(32, |i: int| 0u8)
        &&& self.vault@ == Seq::new(32, |i: int| 0u8)
        &&& self.total_deposited == 0
        &&& self.total_lp_supply == 0
        &&& self.cooldown_slots == 0
        &&& self.deposit_cap == 0
        &&& self.total_flushed == 0
        &&& self.total_returned == 0
        &&& self.total_withdrawn == 0
        &&& self.percolator_program@ == Seq::new(32, |i: int| 0u8)
        &&& self._reserved@ == Seq::new(96, |i: int| 0u8)
    }

    /// The pool after a deposit of `amount` that minted `lp_minted`.
    pub open spec fn after_deposit(self, amount: u64, lp_minted: u64) -> StakePool {
        StakePool {
            total_deposited: (self.total_deposited + amount) as u64,
            total_lp_supply: (self.total_lp_supply + lp_minted) as u64,
            ..self
        }
    }

    /// The pool after a withdrawal of `collateral` that burned `lp_burned`.
    pub open spec fn after_withdraw(self, collateral: u64, lp_burned: u64) -> StakePool {
        StakePool {
            total_withdrawn: (self.total_withdrawn + collateral) as u64,
            total_lp_supply: (self.total_lp_supply - lp_burned) as u64,
            ..self
        }
    }

    /// The pool after `amount` went to the reserve.
    pub open spec fn after_flush(self, amount: u64) -> StakePool {
        StakePool { total_flushed: (self.total_flushed + amount) as u64, ..self }
    }

    /// The pool after `amount` came back from the reserve.
    pub open spec fn after_return(self, amount: u64) -> StakePool {
        StakePool { total_returned: (self.total_returned + amount) as u64, ..self }
    }

    /// What may still go to the reserve: `total_deposited - total_withdrawn
    /// - total_flushed`, and `None` where that is negative.
    pub open spec fn flushable(self) -> Option<u64> {
        if self.total_deposited - self.total_withdrawn - self.total_flushed >= 0
            && self.total_deposited >= self.total_withdrawn {
            Some((self.total_deposited - self.total_withdrawn - self.total_flushed) as u64)
        } else {
            None
        }
    }

    /// A pool with every byte zero: not initialized, all totals zero.
    pub fn zeroed() -> (pool: StakePool)
        ensures
            pool.is_zeroed(),
            pool.value() == Some(0u64),
    {
        let pool = StakePool {
            is_initialized: 0,
            bump: 0,
            vault_authority_bump: 0,
            admin_transferred: 0,
            _padding: [0u8; 4],
            slab: [0u8; 32],
            admin: [0u8; 32],
            collateral_mint: [0u8; 32],
            lp_mint: [0u8; 32],
            vault: [0u8; 32],
            total_deposited: 0,
            total_lp_supply: 0,
            cooldown_slots: 0,
            deposit_cap: 0,
            total_flushed: 0,
            total_returned: 0,
            total_withdrawn: 0,
            percolator_program: [0u8; 32],
            _reserved: [0u8; 96],
        };
        assert(pool._padding@ =~= Seq::new(4, |i: int| 0u8));
        assert(pool.slab@ =~= Seq::new(32, |i: int| 0u8));
        assert(pool.admin@ =~= Seq::new(32, |i: int| 0u8));
        assert(pool.collateral_mint@ =~= Seq::new(32, |i: int| 0u8));
        assert(pool.lp_mint@ =~= Seq::new(32, |i: int| 0u8));
        assert(pool.vault@ =~= Seq::new(32, |i: int| 0u8));
        assert(pool.percolator_program@ =~= Seq::new(32, |i: int| 0u8));
        assert(pool._reserved@ =~= Seq::new(96, |i: int| 0u8));
        pool
    }

    /// Total pool value: `deposited - withdrawn - flushed + returned`.
    ///
    /// This is what the vault holds and what LP holders can withdraw. Flushed
    /// collateral has left the vault and returned collateral has come back.
    /// `None` reports a ledger that does not add up: more withdrawn than
    /// deposited, more flushed than was left, or a sum beyond 64 bits.
    pub fn total_pool_value(&self) -> (value: Option<u64>)
        ensures
            value == self.value(),
            value is None <==> self.total_withdrawn > self.total_deposited || self.total_flushed
                > self.total_deposited - self.total_withdrawn || self.total_deposited
                - self.total_withdrawn - self.total_flushed + self.total_returned > u64::MAX,
            value matches Some(v) ==> v == self.total_deposited - self.total_withdrawn
                - self.total_flushed + self.total_returned,
    {
        pool_value_with_flush(
            self.total_deposited,
            self.total_withdrawn,
            self.total_flushed,
            self.total_returned,
        )
    }

    /// LP tokens to mint for a deposit of `amount` at the pool's current
    /// supply and value. A ledger that does not add up mints nothing.
    pub fn calc_lp_for_deposit(&self, amount: u64) -> (lp: Option<u64>)
        ensures
            lp == match self.value() {
                Some(value) => lp_for_deposit(self.total_lp_supply, value, amount),
                None => None,
            },
            lp matches Some(minted) ==> minted * self.value()->0 <= amount * self.total_lp_supply,
    {
        match self.total_pool_value() {
            Some(value) => calc_lp_for_deposit(self.total_lp_supply, value, amount),
            None => None,
        }
    }

    /// Collateral to pay out for burning `lp_amount` LP tokens at the pool's
    /// current supply and value. A ledger that does not add up pays nothing.
    pub fn calc_collateral_for_withdraw(&self, lp_amount: u64) -> (collateral: Option<u64>)
        ensures
            collateral == match self.value() {
                Some(value) => collateral_for_withdraw(self.total_lp_supply, value, lp_amount),
                None => None,
            },
            collateral matches Some(paid) ==> paid * self.total_lp_supply <= lp_amount
                * self.value()->0,
    {
        match self.total_pool_value() {
            Some(value) => calc_collateral_for_withdraw(self.total_lp_supply, value, lp_amount),
            None => None,
        }
    }

    /// Records a deposit of `amount` for which `lp_minted` LP tokens were
    /// minted. Fails with `Overflow`, and changes nothing, where a total
    /// would leave 64 bits.
    pub fn record_deposit(&mut self, amount: u64, lp_minted: u64) -> (done: Result<
        (),
        StakeError,
    >)
        ensures
            done is Ok <==> old(self).total_deposited + amount <= u64::MAX && old(
                self,
            ).total_lp_supply + lp_minted <= u64::MAX,
            done is Ok ==> *final(self) == old(self).after_deposit(amount, lp_minted),
            done matches Err(e) ==> e == StakeError::Overflow && *final(self) == *old(self),
    {
        let deposited: u64 = match self.total_deposited.checked_add(amount) {
            Some(v) => v,
            None => { return Err(StakeError::Overflow); },
        };
        let supply: u64 = match self.total_lp_supply.checked_add(lp_minted) {
            Some(v) => v,
            None => { return Err(StakeError::Overflow); },
        };
        self.total_deposited = deposited;
        self.total_lp_supply = supply;
        Ok(())
    }

    /// Records a withdrawal of `collateral` for which `lp_burned` LP tokens
    /// were burned. Fails with `Overflow`, and changes nothing, where the
    /// withdrawn total would leave 64 bits or more is burned than exists.
    pub fn record_withdraw(&mut self, collateral: u64, lp_burned: u64) -> (done: Result<
        (),
        StakeError,
    >)
        ensures
            done is Ok <==> old(self).total_withdrawn + collateral <= u64::MAX && lp_burned <= old(
                self,
            ).total_lp_supply,
            done is Ok ==> *final(self) == old(self).after_withdraw(collateral, lp_burned),
            done matches Err(e) ==> e == StakeError::Overflow && *final(self) == *old(self),
    {
        let withdrawn: u64 = match self.total_withdrawn.checked_add(collateral) {
            Some(v) => v,
            None => { return Err(StakeError::Overflow); },
        };
        let supply: u64 = match self.total_lp_supply.checked_sub(lp_burned) {
            Some(v) => v,
            None => { return Err(StakeError::Overflow); },
        };
        self.total_withdrawn = withdrawn;
        self.total_lp_supply = supply;
        Ok(())
    }

    /// Checks that `amount` can go to the reserve: what is left of the
    /// deposits after withdrawals and earlier flushes must cover it. A
    /// ledger on which that remainder is negative gives `Overflow`; an
    /// amount above the remainder gives `InsufficientFunds`.
    pub fn check_flush(&self, amount: u64) -> (checked: Result<(), ProcessError>)
        ensures
            checked is Ok <==> (self.flushable() matches Some(available) && amount <= available),
            self.flushable() is None ==> checked == Err::<(), ProcessError>(
                ProcessError::Stake(StakeError::Overflow),
            ),
            self.flushable() matches Some(available) && amount > available ==> checked == Err::<
                (),
                ProcessError,
            >(ProcessError::InsufficientFunds),
    {
        let after_withdrawals: u64 = match self.total_deposited.checked_sub(self.total_withdrawn) {
            Some(v) => v,
            None => { return Err(ProcessError::Stake(StakeError::Overflow)); },
        };
        let available: u64 = match after_withdrawals.checked_sub(self.total_flushed) {
            Some(v) => v,
            None => { return Err(ProcessError::Stake(StakeError::Overflow)); },
        };
        if amount > available {
            return Err(ProcessError::InsufficientFunds);
        }
        Ok(())
    }

    /// Records that `amount` went to the reserve. Fails as `check_flush`
    /// does, and changes nothing, where the pool does not cover `amount`.
    pub fn record_flush(&mut self, amount: u64) -> (done: Result<(), ProcessError>)
        ensures
            done is Ok <==> (old(self).flushable() matches Some(available) && amount <= available),
            done is Ok ==> *final(self) == old(self).after_flush(amount),
            done is Err ==> *final(self) == *old(self),
            old(self).flushable() is None ==> done == Err::<(), ProcessError>(
                ProcessError::Stake(StakeError::Overflow),
            ),
            old(self).flushable() matches Some(available) && amount > available ==> done == Err::<
                (),
                ProcessError,
            >(ProcessError::InsufficientFunds),
    {
        match self.check_flush(amount) {
            Ok(()) => {},
            Err(e) => { return Err(e); },
        }
        self.total_flushed = self.total_flushed + amount;
        Ok(())
    }

    /// Records that `amount` came back from the reserve. Fails with
    /// `Overflow`, and changes nothing, where the returned total would leave
    /// 64 bits.
    pub fn record_return(&mut self, amount: u64) -> (done: Result<(), StakeError>)
        ensures
            done is Ok <==> old(self).total_returned + amount <= u64::MAX,
            done is Ok ==> *final(self) == old(self).after_return(amount),
            done matches Err(e) ==> e == StakeError::Overflow && *final(self) == *old(self),
    {
        match self.total_returned.checked_add(amount) {
            Some(v) => {
                self.total_returned = v;
                Ok(())
            },
            None => Err(StakeError::Overflow),
        }
    }

    /// Writes the state of a freshly created pool: initialized, all totals
    /// zero, the wrapper's admin not yet transferred. The padding and the
    /// reserved bytes stay as they are.
    pub fn initialize(
        &mut self,
        bump: u8,
        vault_authority_bump: u8,
        slab: [u8; 32],
        admin: [u8; 32],
        collateral_mint: [u8; 32],
        lp_mint: [u8; 32],
        vault: [u8; 32],
        percolator_program: [u8; 32],
        cooldown_slots: u64,
        deposit_cap: u64,
    )
        ensures
            *final(self) == (StakePool {
                is_initialized: 1,
                bump,
                vault_authority_bump,
                admin_transferred: 0,
                slab,
                admin,
                collateral_mint,
                lp_mint,
                vault,
                total_deposited: 0,
                total_lp_supply: 0,
                cooldown_slots,
                deposit_cap,
                total_flushed: 0,
                total_returned: 0,
                total_withdrawn: 0,
                percolator_program,
                ..*old(self)
            }),
            final(self).value() == Some(0u64),
    {
        self.is_initialized = 1;
        self.bump = bump;
        self.vault_authority_bump = vault_authority_bump;
        self.admin_transferred = 0;
        self.slab = slab;
        self.admin = admin;
        self.collateral_mint = collateral_mint;
        self.lp_mint = lp_mint;
        self.vault = vault;
        self.total_deposited = 0;
        self.total_lp_supply = 0;
        self.cooldown_slots = cooldown_slots;
        self.deposit_cap = deposit_cap;
        self.total_flushed = 0;
        self.total_returned = 0;
        self.total_withdrawn = 0;
        self.percolator_program = percolator_program;
    }

    /// Records that the wrapper's admin is now the pool address.
    pub fn mark_admin_transferred(&mut self)
        ensures
            *final(self) == (StakePool { admin_transferred: 1, ..*old(self) }),
    {
        self.admin_transferred = 1;
    }

    /// Sets the cooldown, the deposit cap, or both; `None` leaves a setting
    /// as it is.
    pub fn update_config(&mut self, new_cooldown_slots: Option<u64>, new_deposit_cap: Option<u64>)
        ensures
            *final(self) == (StakePool {
                cooldown_slots: match new_cooldown_slots {
                    Some(v) => v,
                    None => old(self).cooldown_slots,
                },
                deposit_cap: match new_deposit_cap {
                    Some(v) => v,
                    None => old(self).deposit_cap,
                },
                ..*old(self)
            }),
    {
        if let Some(cooldown) = new_cooldown_slots {
            self.cooldown_slots = cooldown;
        }
        if let Some(cap) = new_deposit_cap {
            self.deposit_cap = cap;
        }
    }
}

impl StakeDeposit {
    /// Whether every byte of the record is zero.
    pub open spec fn is_zeroed(self) -> bool {
        &&& self.is_initialized == 0
        &&& self.bump == 0
        &&& self._padding@ == Seq::new(6, |i: int| 0u8)
        &&& self.pool@ == Seq::new(32, |i: int| 0u8)
        &&& self.user@ == Seq::new(32, |i: int| 0u8)
        &&& self.last_deposit_slot == 0
        &&& self.lp_amount == 0
        &&& self._reserved@ == Seq::new(64, |i: int| 0u8)
    }

    /// A record with every byte zero: not initialized, no LP tokens.
    pub fn zeroed() -> (record: StakeDeposit)
        ensures
            record.is_zeroed(),
    {
        let record = StakeDeposit {
            is_initialized: 0,
            bump: 0,
            _padding: [0u8; 6],
            pool: [0u8; 32],
            user: [0u8; 32],
            last_deposit_slot: 0,
            lp_amount: 0,
            _reserved: [0u8; 64],
        };
        assert(record._padding@ =~= Seq::new(6, |i: int| 0u8));
        assert(record.pool@ =~= Seq::new(32, |i: int| 0u8));
        assert(record.user@ =~= Seq::new(32, |i: int| 0u8));
        assert(record._reserved@ =~= Seq::new(64, |i: int| 0u8));
        record
    }

    /// Whether the cooldown since the last deposit has passed at `slot`.
    pub fn cooldown_elapsed(&self, cooldown_slots: u64, slot: u64) -> (elapsed: bool)
        ensures
            elapsed <==> slot >= cooldown_end(
                self.last_deposit_slot as int,
                cooldown_slots as int,
            ),
    {
        cooldown_elapsed(slot, self.last_deposit_slot, cooldown_slots)
    }

    /// Records a deposit made at `slot` that minted `lp_minted`: the record
    /// is marked initialized, bound to `pool` and `user`, its cooldown
    /// restarts, and its LP balance grows. Fails with `Overflow`, and
    /// changes nothing, where the balance would leave 64 bits.
    pub fn record_deposit(
        &mut self,
        bump: u8,
        pool: [u8; 32],
        user: [u8; 32],
        slot: u64,
        lp_minted: u64,
    ) -> (done: Result<(), StakeError>)
        ensures
            done is Ok <==> old(self).lp_amount + lp_minted <= u64::MAX,
            done is Ok ==> *final(self) == (StakeDeposit {
                is_initialized: 1,
                bump,
                pool,
                user,
                last_deposit_slot: slot,
                lp_amount: (old(self).lp_amount + lp_minted) as u64,
                ..*old(self)
            }),
            done matches Err(e) ==> e == StakeError::Overflow && *final(self) == *old(self),
    {
        let balance: u64 = match self.lp_amount.checked_add(lp_minted) {
            Some(v) => v,
            None => { return Err(StakeError::Overflow); },
        };
        self.is_initialized = 1;
        self.bump = bump;
        self.pool = pool;
        self.user = user;
        self.last_deposit_slot = slot;
        self.lp_amount = balance;
        Ok(())
    }

    /// Records that `lp_burned` LP tokens were burned. Fails with
    /// `InsufficientLpTokens`, and changes nothing, where the record holds
    /// fewer.
    pub fn record_withdraw(&mut self, lp_burned: u64) -> (done: Result<(), StakeError>)
        ensures
            done is Ok <==> lp_burned <= old(self).lp_amount,
            done is Ok ==> *final(self) == (StakeDeposit {
                lp_amount: (old(self).lp_amount - lp_burned) as u64,
                ..*old(self)
            }),
            done matches Err(e) ==> e == StakeError::InsufficientLpTokens && *final(self) == *old(
                self,
            ),
    {
        match self.lp_amount.checked_sub(lp_burned) {
            Some(v) => {
                self.lp_amount = v;
                Ok(())
            },
            None => Err(StakeError::InsufficientLpTokens),
        }
    }
}

/// First seed of a pool address: the bytes of `stake_pool`.
pub open spec fn pool_seed_tag() -> Seq<u8> {
    seq![115u8, 116, 97, 107, 101, 95, 112, 111, 111, 108]
}

/// First seed of a vault authority address: the bytes of `vault_auth`.
pub open spec fn vault_authority_seed_tag() -> Seq<u8> {
    seq![118u8, 97, 117, 108, 116, 95, 97, 117, 116, 104]
}

/// First seed of a deposit record address: the bytes of `stake_deposit`.
pub open spec fn deposit_seed_tag() -> Seq<u8> {
    seq![115u8, 116, 97, 107, 101, 95, 100, 101, 112, 111, 115, 105, 116]
}

/// The pool address for `slab`, derived from the seeds `stake_pool` and the
/// slab's key.
pub open spec fn pool_pda(program_id: Seq<u8>, slab: Seq<u8>) -> Option<(Seq<u8>, u8)> {
    program_address(seq![pool_seed_tag(), slab], program_id)
}

/// The vault authority address for `pool`, derived from the seeds
/// `vault_auth` and the pool's key.
pub open spec fn vault_authority_pda(program_id: Seq<u8>, pool: Seq<u8>) -> Option<(Seq<u8>, u8)> {
    program_address(seq![vault_authority_seed_tag(), pool], program_id)
}

/// The deposit record address of `user` in `pool`, derived from the seeds
/// `stake_deposit`, the pool's key and the user's key.
pub open spec fn deposit_pda(program_id: Seq<u8>, pool: Seq<u8>, user: Seq<u8>) -> Option<
    (Seq<u8>, u8),
> {
    program_address(seq![deposit_seed_tag(), pool, user], program_id)
}

/// Whether a derivation gave the address `address` with the bump `bump`.
pub open spec fn derives(derivation: Option<(Seq<u8>, u8)>, derived: Option<([u8; 32], u8)>) -> bool {
    match derived {
        Some(pair) => derivation == Some((pair.0@, pair.1)),
        None => derivation is None,
    }
}

/// Derives the pool address for a slab, with its bump seed. This address
/// also becomes the wrapper admin once the admin is transferred. `None`
/// where the runtime finds no address.
pub fn derive_pool_pda(program_id: &[u8; 32], slab: &[u8; 32]) -> (derived: Option<([u8; 32], u8)>)
    ensures
        derives(pool_pda(program_id@, slab@), derived),
{
    let mut seeds: Vec<Vec<u8>> = Vec::new();
    seeds.push(vec![115u8, 116, 97, 107, 101, 95, 112, 111, 111, 108]);
    seeds.push(slice_to_vec(slab.as_slice()));
    assert(seeds.deep_view() =~= seq![pool_seed_tag(), slab@]) by {
        assert(seeds@[0].deep_view() =~= pool_seed_tag());
        assert(seeds@[1].deep_view() =~= slab@);
    }
    find_program_address(&seeds, program_id)
}

/// Derives the vault authority address for a pool, with its bump seed. The
/// vault authority controls the LP mint and the vault token account. `None`
/// where the runtime finds no address.
pub fn derive_vault_authority(program_id: &[u8; 32], pool: &[u8; 32]) -> (derived: Option<
    ([u8; 32], u8),
>)
    ensures
        derives(vault_authority_pda(program_id@, pool@), derived),
{
    let mut seeds: Vec<Vec<u8>> = Vec::new();
    seeds.push(vec![118u8, 97, 117, 108, 116, 95, 97, 117, 116, 104]);
    seeds.push(slice_to_vec(pool.as_slice()));
    assert(seeds.deep_view() =~= seq![vault_authority_seed_tag(), pool@]) by {
        assert(seeds@[0].deep_view() =~= vault_authority_seed_tag());
        assert(seeds@[1].deep_view() =~= pool@);
    }
    find_program_address(&seeds, program_id)
}

/// Derives the address of a user's deposit record in a pool, with its bump
/// seed. `None` where the runtime finds no address.
pub fn derive_deposit_pda(program_id: &[u8; 32], pool: &[u8; 32], user: &[u8; 32]) -> (derived:
    Option<([u8; 32], u8)>)
    ensures
        derives(deposit_pda(program_id@, pool@, user@), derived),
{
    let mut seeds: Vec<Vec<u8>> = Vec::new();
    seeds.push(vec![115u8, 116, 97, 107, 101, 95, 100, 101, 112, 111, 115, 105, 116]);
    seeds.push(slice_to_vec(pool.as_slice()));
    seeds.push(slice_to_vec(user.as_slice()));
    assert(seeds.deep_view() =~= seq![deposit_seed_tag(), pool@, user@]) by {
        assert(seeds@[0].deep_view() =~= deposit_seed_tag());
        assert(seeds@[1].deep_view() =~= pool@);
        assert(seeds@[2].deep_view() =~= user@);
    }
    find_program_address(&seeds, program_id)
}

} // verus!
