//! The share math and the policy gates at 32-bit width.
//!
//! These follow the same rules as their 64-bit counterparts, with 64-bit
//! intermediates in place of 128-bit ones. Both widths are stated over the
//! same unbounded definitions, so on values that fit in 32 bits they agree
//! wherever the narrow result exists.

use vstd::prelude::*;
use crate::arith::lemma_floor_bounds;
use crate::math::{
    collateral_for_withdraw, lp_for_deposit, mint_quote, net_value, redeem_quote,
    spec_pool_value_with_flush,
};
use crate::policy::saturating_end;

verus! {

/// Narrows an unbounded result to 32 bits: a value outside the range fails.
pub open spec fn fit_u32(q: Option<int>) -> Option<u32> {
    match q {
        Some(v) => if 0 <= v <= u32::MAX {
            Some(v as u32)
        } else {
            None
        },
        None => None,
    }
}

/// Claim tokens to mint for a deposit: one to one into an empty pool,
/// `None` while exactly one of supply and value is zero, and otherwise
/// `floor(deposit * supply / pool_value)`, or `None` where that exceeds 32
/// bits.
pub fn calc_lp_for_deposit(supply: u32, pool_value: u32, deposit: u32) -> (lp: Option<u32>)
    ensures
        lp == fit_u32(mint_quote(supply as int, pool_value as int, deposit as int)),
        lp matches Some(minted) ==> minted * pool_value <= deposit * supply,
        lp matches Some(minted) ==> lp_for_deposit(supply as u64, pool_value as u64, deposit as u64)
            == Some(minted as u64),
{
    if supply == 0 && pool_value == 0 {
        Some(deposit)
    } else if supply == 0 || pool_value == 0 {
        None
    } else {
        proof {
            assert(0 <= deposit as int * supply as int <= u32::MAX as int * u32::MAX as int)
                by (nonlinear_arith)
                requires
                    0 <= deposit <= u32::MAX,
                    0 <= supply <= u32::MAX,
            ;
            lemma_floor_bounds(deposit as int * supply as int, pool_value as int);
        }
        let product: u64 = (deposit as u64) * (supply as u64);
        let lp: u64 = product / (pool_value as u64);
        if lp > u32::MAX as u64 {
            None
        } else {
            Some(lp as u32)
        }
    }
}

/// Collateral to pay out for burning claim tokens: `None` without supply,
/// and otherwise `floor(lp * pool_value / supply)`, or `None` where that
/// exceeds 32 bits.
pub fn calc_collateral_for_withdraw(supply: u32, pool_value: u32, lp: u32) -> (collateral: Option<
    u32,
>)
    ensures
        collateral == fit_u32(redeem_quote(supply as int, pool_value as int, lp as int)),
        collateral matches Some(paid) ==> paid * supply <= lp * pool_value,
        collateral matches Some(paid) ==> collateral_for_withdraw(
            supply as u64,
            pool_value as u64,
            lp as u64,
        ) == Some(paid as u64),
{
    if supply == 0 {
        return None;
    }
    proof {
        assert(0 <= lp as int * pool_value as int <= u32::MAX as int * u32::MAX as int)
            by (nonlinear_arith)
            requires
                0 <= lp <= u32::MAX,
                0 <= pool_value <= u32::MAX,
        ;
        lemma_floor_bounds(lp as int * pool_value as int, supply as int);
    }
    let product: u64 = (lp as u64) * (pool_value as u64);
    let collateral: u64 = product / (supply as u64);
    if collateral > u32::MAX as u64 {
        None
    } else {
        Some(collateral as u32)
    }
}

/// `deposited - withdrawn`, or `None` when more was withdrawn than
/// deposited.
pub fn pool_value(deposited: u32, withdrawn: u32) -> (value: Option<u32>)
    ensures
        value == fit_u32(net_value(deposited as int, withdrawn as int, 0, 0)),
        withdrawn > deposited <==> value is None,
        value matches Some(v) ==> v == deposited - withdrawn,
{
    deposited.checked_sub(withdrawn)
}

/// `deposited - withdrawn - flushed + returned`, each step checked: `None`
/// as soon as one leaves the 32-bit range.
pub fn pool_value_with_flush(deposited: u32, withdrawn: u32, flushed: u32, returned: u32) -> (value:
    Option<u32>)
    ensures
        value == fit_u32(
            net_value(deposited as int, withdrawn as int, flushed as int, returned as int),
        ),
        value matches Some(v) ==> v == deposited - withdrawn - flushed + returned,
        value matches Some(v) ==> spec_pool_value_with_flush(
            deposited as u64,
            withdrawn as u64,
            flushed as u64,
            returned as u64,
        ) == Some(v as u64),
{
    let after_withdrawals: u32 = match deposited.checked_sub(withdrawn) {
        Some(v) => v,
        None => { return None; },
    };
    let after_flush: u32 = match after_withdrawals.checked_sub(flushed) {
        Some(v) => v,
        None => { return None; },
    };
    after_flush.checked_add(returned)
}

/// `deposited - withdrawn - flushed`, saturating at zero.
pub fn flush_available(deposited: u32, withdrawn: u32, flushed: u32) -> (available: u32)
    ensures
        available <= deposited,
        withdrawn + flushed <= deposited ==> available == deposited - withdrawn - flushed,
        withdrawn + flushed >= deposited ==> available == 0,
{
    deposited.saturating_sub(withdrawn).saturating_sub(flushed)
}

/// Whether `current_slot >= deposit_slot + cooldown_slots`, the sum
/// saturating at 32 bits.
pub fn cooldown_elapsed(current_slot: u32, deposit_slot: u32, cooldown_slots: u32) -> (elapsed:
    bool)
    ensures
        elapsed <==> current_slot >= saturating_end(
            deposit_slot as int,
            cooldown_slots as int,
            u32::MAX as int,
        ),
        deposit_slot + cooldown_slots <= u32::MAX ==> (elapsed <==> current_slot >= deposit_slot
            + cooldown_slots),
{
    current_slot >= deposit_slot.saturating_add(cooldown_slots)
}

/// Whether `cap > 0 && total_deposited + new_deposit > cap`. A cap of zero
/// means no cap, and a sum beyond 32 bits exceeds every cap.
pub fn exceeds_cap(total_deposited: u32, new_deposit: u32, cap: u32) -> (exceeds: bool)
    ensures
        exceeds <==> cap > 0 && total_deposited + new_deposit > cap,
{
    if cap == 0 {
        return false;
    }
    match total_deposited.checked_add(new_deposit) {
        Some(total) => total > cap,
        None => true,
    }
}

} // verus!
