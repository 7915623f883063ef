//! Laws of the share math: what holds of every deposit and every
//! redemption, whatever the state of the pool.

use vstd::prelude::*;
use crate::arith::{
    lemma_floor_bounds, lemma_floor_cross, lemma_floor_le_bound, lemma_floor_monotone,
    lemma_scaled_floor_le,
};
use crate::math::{
    collateral_for_withdraw, fee_split, loss_split, lp_for_deposit, spec_pool_value,
    spec_pool_value_with_flush,
};
use crate::state::StakePool;

verus! {

/// No inflation: claim tokens minted for a deposit and redeemed at once,
/// against the pool as the deposit left it, never pay out more than was
/// deposited. The redemption only fails where nothing was minted into an
/// empty pool.
pub proof fn law_no_inflation(supply: u64, pool_value: u64, deposit: u64)
    requires
        lp_for_deposit(supply, pool_value, deposit) is Some,
        supply + lp_for_deposit(supply, pool_value, deposit)->0 <= u64::MAX,
        pool_value + deposit <= u64::MAX,
    ensures
        ({
            let lp = lp_for_deposit(supply, pool_value, deposit)->0;
            match collateral_for_withdraw(
                (supply + lp) as u64,
                (pool_value + deposit) as u64,
                lp,
            ) {
                Some(back) => back <= deposit,
                None => supply + lp == 0,
            }
        }),
{
    let lp = lp_for_deposit(supply, pool_value, deposit)->0;
    let s = supply as int;
    let v = pool_value as int;
    let d = deposit as int;
    let l = lp as int;
    if s + l > 0 {
        if s == 0 {
            // First deposit: `l == d`, and `d * d / d <= d`.
            assert(l * (v + d) <= d * (s + l)) by (nonlinear_arith)
                requires
                    l == d,
                    v == 0,
                    s == 0,
            ;
        } else {
            lemma_floor_bounds(d * s, v);
            assert(l * (v + d) <= d * (s + l)) by (nonlinear_arith)
                requires
                    l * v <= d * s,
            ;
        }
        assert(0 <= l * (v + d)) by (nonlinear_arith)
            requires
                0 <= l,
                0 <= v + d,
        ;
        lemma_floor_bounds(l * (v + d), s + l);
        lemma_floor_le_bound(l * (v + d), s + l, d);
    }
}

/// First-depositor exactness: a deposit into an empty pool mints exactly
/// its own amount.
pub proof fn law_first_deposit_one_to_one(amount: u64)
    ensures
        lp_for_deposit(0, 0, amount) == Some(amount),
{
}

/// First-depositor exactness: redeeming the whole of a first deposit at
/// once returns exactly what was deposited.
pub proof fn law_first_deposit_redeems_in_full(amount: u64)
    requires
        amount > 0,
    ensures
        collateral_for_withdraw(amount, amount, amount) == Some(amount),
{
    let a = amount as int;
    assert(a * a / a == a) by (nonlinear_arith)
        requires
            a > 0,
    ;
}

/// Monotonicity of minting: in one pool state a smaller deposit mints
/// whenever a larger one does, and never mints more.
pub proof fn law_mint_monotone(supply: u64, pool_value: u64, smaller: u64, larger: u64)
    requires
        smaller <= larger,
    ensures
        lp_for_deposit(supply, pool_value, larger) matches Some(more) ==> (lp_for_deposit(
            supply,
            pool_value,
            smaller,
        ) matches Some(less) && less <= more),
{
    if supply > 0 && pool_value > 0 {
        let s = supply as int;
        let v = pool_value as int;
        assert(0 <= smaller * s <= larger * s) by (nonlinear_arith)
            requires
                0 <= smaller <= larger,
                0 <= s,
        ;
        lemma_floor_monotone(smaller as int * s, larger as int * s, v);
        lemma_floor_bounds(smaller as int * s, v);
    }
}

/// Monotonicity of redemption: in one pool state a smaller burn pays out
/// whenever a larger one does, and never pays more.
pub proof fn law_redeem_monotone(supply: u64, pool_value: u64, smaller: u64, larger: u64)
    requires
        smaller <= larger,
    ensures
        collateral_for_withdraw(supply, pool_value, larger) matches Some(more) ==> (
        collateral_for_withdraw(supply, pool_value, smaller) matches Some(less) && less <= more),
{
    if supply > 0 {
        let s = supply as int;
        let v = pool_value as int;
        assert(0 <= smaller * v <= larger * v) by (nonlinear_arith)
            requires
                0 <= smaller <= larger,
                0 <= v,
        ;
        lemma_floor_monotone(smaller as int * v, larger as int * v, s);
        lemma_floor_bounds(smaller as int * v, s);
    }
}

/// No dilution: a deposit by someone else never lowers what a holder of
/// `held` claim tokens can redeem, as long as nothing is lost in between.
/// After the deposit the holder's redemption only fails where `held` is more
/// than the whole supply.
pub proof fn law_no_dilution(supply: u64, pool_value: u64, held: u64, deposit: u64)
    requires
        lp_for_deposit(supply, pool_value, deposit) is Some,
        supply + lp_for_deposit(supply, pool_value, deposit)->0 <= u64::MAX,
        pool_value + deposit <= u64::MAX,
    ensures
        ({
            let lp = lp_for_deposit(supply, pool_value, deposit)->0;
            collateral_for_withdraw(supply, pool_value, held) matches Some(before) ==> (
            match collateral_for_withdraw(
                (supply + lp) as u64,
                (pool_value + deposit) as u64,
                held,
            ) {
                Some(after) => before <= after,
                None => held > supply + lp,
            })
        }),
{
    let lp = lp_for_deposit(supply, pool_value, deposit)->0;
    let s = supply as int;
    let v = pool_value as int;
    let d = deposit as int;
    let l = lp as int;
    let h = held as int;
    if s > 0 {
        assert(0 <= h * v && 0 <= h * (v + d)) by (nonlinear_arith)
            requires
                0 <= h,
                0 <= v,
                0 <= d,
        ;
        if v == 0 {
            // A pool without value takes no deposit.
            assert(false);
        }
        lemma_floor_bounds(d * s, v);
        // The deposit is worth at least the tokens it mints: `l * v <= d * s`.
        assert((h * v) * (s + l) <= (h * (v + d)) * s) by (nonlinear_arith)
            requires
                l * v <= d * s,
                0 <= h,
        ;
        lemma_floor_cross(h * (v + d), s + l, h * v, s);
        lemma_floor_bounds(h * (v + d), s + l);
        if h <= s + l {
            assert(h * (v + d) <= (v + d) * (s + l)) by (nonlinear_arith)
                requires
                    0 <= h <= s + l,
                    0 <= v + d,
            ;
            lemma_floor_le_bound(h * (v + d), s + l, v + d);
        }
    }
}

/// Flush and return conservation: where a flush of `flushed` is covered by
/// the pool, it lowers the pool value by exactly `flushed`, and returning
/// all of it restores the value from before the flush, with nothing lost to
/// rounding.
pub proof fn law_flush_return_conservation(deposited: u64, withdrawn: u64, flushed: u64)
    requires
        spec_pool_value_with_flush(deposited, withdrawn, flushed, 0) is Some,
    ensures
        spec_pool_value(deposited, withdrawn) is Some,
        spec_pool_value_with_flush(deposited, withdrawn, flushed, 0)->0 == spec_pool_value(
            deposited,
            withdrawn,
        )->0 - flushed,
        spec_pool_value_with_flush(deposited, withdrawn, flushed, flushed) == spec_pool_value(
            deposited,
            withdrawn,
        ),
{
}

/// A deposit raises the pool's value by exactly its amount, whatever it
/// minted.
pub proof fn law_deposit_adds_value(pool: StakePool, amount: u64, lp_minted: u64)
    requires
        pool.value() is Some,
        pool.total_deposited + amount <= u64::MAX,
        pool.total_lp_supply + lp_minted <= u64::MAX,
        pool.value()->0 + amount <= u64::MAX,
    ensures
        pool.after_deposit(amount, lp_minted).value() == Some((pool.value()->0 + amount) as u64),
{
}

/// A flush that the pool covers lowers its value by exactly the amount,
/// and the return of the same amount restores the value from before the
/// flush: the two move value unit for unit and lose nothing to rounding.
pub proof fn law_flush_then_return_restores_value(pool: StakePool, amount: u64)
    requires
        pool.value() is Some,
        pool.flushable() matches Some(available) && amount <= available,
        pool.total_returned + amount <= u64::MAX,
    ensures
        pool.after_flush(amount).value() == Some((pool.value()->0 - amount) as u64),
        pool.after_flush(amount).after_return(amount).value() == pool.value(),
        pool.after_flush(amount).after_return(amount).total_lp_supply == pool.total_lp_supply,
{
}

/// No inflation on the ledger: LP tokens minted by a deposit and burned
/// again at once, with the deposit recorded in between, never pay out more
/// than was deposited.
pub proof fn law_ledger_no_inflation(pool: StakePool, amount: u64)
    requires
        pool.value() is Some,
        lp_for_deposit(pool.total_lp_supply, pool.value()->0, amount) is Some,
        pool.total_deposited + amount <= u64::MAX,
        pool.total_lp_supply + lp_for_deposit(pool.total_lp_supply, pool.value()->0, amount)->0
            <= u64::MAX,
        pool.value()->0 + amount <= u64::MAX,
    ensures
        ({
            let lp = lp_for_deposit(pool.total_lp_supply, pool.value()->0, amount)->0;
            let after = pool.after_deposit(amount, lp);
            &&& after.value() == Some((pool.value()->0 + amount) as u64)
            &&& collateral_for_withdraw(after.total_lp_supply, after.value()->0, lp) matches Some(
                back,
            ) ==> back <= amount
        }),
{
    law_no_inflation(pool.total_lp_supply, pool.value()->0, amount);
}

/// A loss keeps the tranches in step with the pool: neither tranche loses
/// more than it holds, and together they lose exactly what the pool loses,
/// the loss capped at the sum of the two balances. Balances that added up
/// to the pool's value before the loss add up to it afterwards.
pub proof fn law_loss_keeps_tranche_sum(junior_balance: u64, senior_balance: u64, loss: u64)
    ensures
        ({
            let (junior_loss, senior_loss) = loss_split(
                junior_balance as int,
                senior_balance as int,
                loss as int,
            );
            let capped = if loss <= junior_balance + senior_balance {
                loss as int
            } else {
                junior_balance + senior_balance
            };
            &&& 0 <= junior_loss <= junior_balance
            &&& 0 <= senior_loss <= senior_balance
            &&& junior_loss + senior_loss == capped
            &&& (junior_balance - junior_loss) + (senior_balance - senior_loss) == junior_balance
                + senior_balance - capped
            &&& junior_balance - junior_loss > 0 ==> senior_loss == 0
        }),
{
}

/// A fee is shared without remainder or paid to nobody: the two shares are
/// not negative and add up to the fee wherever some weight exists, and are
/// both zero where none does.
pub proof fn law_fee_shares_add_up(
    junior_balance: u64,
    senior_balance: u64,
    mult_bps: u16,
    fee: u64,
)
    ensures
        ({
            let (junior_fee, senior_fee) = fee_split(
                junior_balance as int,
                senior_balance as int,
                mult_bps as int,
                fee as int,
            );
            let weight = junior_balance * mult_bps + senior_balance * 10_000;
            &&& 0 <= junior_fee <= fee
            &&& 0 <= senior_fee <= fee
            &&& junior_fee + senior_fee <= fee
            &&& weight > 0 ==> junior_fee + senior_fee == fee
            &&& weight == 0 ==> junior_fee == 0 && senior_fee == 0
        }),
{
    let jw = junior_balance as int * mult_bps as int;
    let sw = senior_balance as int * 10_000;
    assert(0 <= jw) by (nonlinear_arith)
        requires
            jw == junior_balance as int * mult_bps as int,
            0 <= junior_balance,
            0 <= mult_bps,
    ;
    if jw + sw > 0 {
        lemma_scaled_floor_le(fee as int, jw, jw + sw);
    }
}

} // verus!
