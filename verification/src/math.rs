//! Share math: conversions between deposited value and claim tokens, and
//! the pool value derived from the running totals.
//!
//! Every function here is total and free of state. The contracts are stated
//! over unbounded integers first (`mint_quote`, `redeem_quote`, `net_value`)
//! and narrowed to the machine width by `fit_u64`.

use vstd::prelude::*;
use vstd::arithmetic::div_mod::lemma_fundamental_div_mod;
use crate::arith::{lemma_floor_bounds, lemma_floor_unique, lemma_scaled_floor_le};

verus! {

/// The three states a pool can be in when a deposit arrives.
#[derive(Clone, Copy, Debug, PartialEq, Eq, Structural)]
pub enum PoolPhase {
    /// No claim tokens and no value: the next deposit mints one to one.
    FirstDeposit,
    /// Exactly one of supply and value is zero: deposits are refused.
    Blocked,
    /// Supply and value are both positive: deposits mint pro rata.
    ProRata,
}

/// Which phase a pool with the given supply and value is in.
pub open spec fn phase_of(supply: int, pool_value: int) -> PoolPhase {
    if supply == 0 && pool_value == 0 {
        PoolPhase::FirstDeposit
    } else if supply == 0 || pool_value == 0 {
        PoolPhase::Blocked
    } else {
        PoolPhase::ProRata
    }
}

/// Claim tokens owed for `deposit`, over unbounded integers.
///
/// An empty pool mints one to one. A pool with value but no claims (orphaned
/// value) or with claims but no value (valueless claims) mints nothing and
/// refuses. Otherwise the deposit buys `floor(deposit * supply / pool_value)`.
pub open spec fn mint_quote(supply: int, pool_value: int, deposit: int) -> Option<int> {
    match phase_of(supply, pool_value) {
        PoolPhase::FirstDeposit => Some(deposit),
        PoolPhase::Blocked => None,
        PoolPhase::ProRata => Some(deposit * supply / pool_value),
    }
}

/// Value owed for burning `lp` claim tokens, over unbounded integers:
/// `floor(lp * pool_value / supply)`, and nothing when there are no claims.
pub open spec fn redeem_quote(supply: int, pool_value: int, lp: int) -> Option<int> {
    if supply == 0 {
        None
    } else {
        Some(lp * pool_value / supply)
    }
}

/// `deposited - withdrawn - flushed + returned`, where no prefix of the two
/// subtractions may go below zero.
pub open spec fn net_value(deposited: int, withdrawn: int, flushed: int, returned: int) -> Option<
    int,
> {
    if deposited - withdrawn < 0 || deposited - withdrawn - flushed < 0 {
        None
    } else {
        Some(deposited - withdrawn - flushed + returned)
    }
}

/// Narrows an unbounded result to 64 bits: a value outside the range fails.
pub open spec fn fit_u64(q: Option<int>) -> Option<u64> {
    match q {
        Some(v) => if 0 <= v <= u64::MAX {
            Some(v as u64)
        } else {
            None
        },
        None => None,
    }
}

/// What `calc_lp_for_deposit` returns.
pub open spec fn lp_for_deposit(supply: u64, pool_value: u64, deposit: u64) -> Option<u64> {
    fit_u64(mint_quote(supply as int, pool_value as int, deposit as int))
}

/// What `calc_collateral_for_withdraw` returns.
pub open spec fn collateral_for_withdraw(supply: u64, pool_value: u64, lp: u64) -> Option<u64> {
    fit_u64(redeem_quote(supply as int, pool_value as int, lp as int))
}

/// What `pool_value` returns.
pub open spec fn spec_pool_value(deposited: u64, withdrawn: u64) -> Option<u64> {
    fit_u64(net_value(deposited as int, withdrawn as int, 0, 0))
}

/// What `pool_value_with_flush` returns.
pub open spec fn spec_pool_value_with_flush(
    deposited: u64,
    withdrawn: u64,
    flushed: u64,
    returned: u64,
) -> Option<u64> {
    fit_u64(net_value(deposited as int, withdrawn as int, flushed as int, returned as int))
}

/// What `pool_value_with_fees` returns: fees count as value that came in.
pub open spec fn spec_pool_value_with_fees(deposited: u64, withdrawn: u64, fees: u64) -> Option<
    u64,
> {
    fit_u64(net_value(deposited as int, withdrawn as int, 0, fees as int))
}

/// What `flush_available` returns: what is left of the deposits after
/// withdrawals and earlier flushes, and zero where that would be negative.
pub open spec fn spec_flush_available(deposited: u64, withdrawn: u64, flushed: u64) -> u64 {
    if deposited - withdrawn - flushed > 0 {
        (deposited - withdrawn - flushed) as u64
    } else {
        0
    }
}

/// Classifies a pool by its supply and value.
pub fn pool_phase(total_lp_supply: u64, total_pool_value: u64) -> (phase: PoolPhase)
    ensures
        phase == phase_of(total_lp_supply as int, total_pool_value as int),
{
    if total_lp_supply == 0 && total_pool_value == 0 {
        PoolPhase::FirstDeposit
    } else if total_lp_supply == 0 || total_pool_value == 0 {
        PoolPhase::Blocked
    } else {
        PoolPhase::ProRata
    }
}

/// `floor(a * b / d)` in 128-bit arithmetic, or `None` when the quotient does
/// not fit in 64 bits.
fn mul_div_floor(a: u64, b: u64, d: u64) -> (q: Option<u64>)
    requires
        d > 0,
    ensures
        q == fit_u64(Some(a as int * b as int / d as int)),
{
    proof {
        assert(0 <= a as int * b as int <= u64::MAX as int * u64::MAX as int)
            by (nonlinear_arith)
            requires
                0 <= a <= u64::MAX,
                0 <= b <= u64::MAX,
        ;
        lemma_floor_bounds(a as int * b as int, d as int);
    }
    let product: u128 = (a as u128) * (b as u128);
    let quotient: u128 = product / (d as u128);
    if quotient > u64::MAX as u128 {
        None
    } else {
        Some(quotient as u64)
    }
}

/// Claim tokens to mint for a deposit.
///
/// Returns `Some(deposit_amount)` for the first deposit into an empty pool,
/// `None` while the pool holds orphaned value or valueless claims, and
/// otherwise `floor(deposit_amount * total_lp_supply / total_pool_value)`, or
/// `None` where that quotient exceeds 64 bits. Rounding is always down: the
/// tokens minted are never worth more than the deposit.
pub fn calc_lp_for_deposit(total_lp_supply: u64, total_pool_value: u64, deposit_amount: u64) -> (lp:
    Option<u64>)
    ensures
        lp == lp_for_deposit(total_lp_supply, total_pool_value, deposit_amount),
        total_lp_supply == 0 && total_pool_value == 0 ==> lp == Some(deposit_amount),
        total_lp_supply == 0 && total_pool_value > 0 ==> lp is None,
        total_lp_supply > 0 && total_pool_value == 0 ==> lp is None,
        lp matches Some(minted) ==> minted * total_pool_value <= deposit_amount * total_lp_supply,
{
    match pool_phase(total_lp_supply, total_pool_value) {
        PoolPhase::FirstDeposit => Some(deposit_amount),
        PoolPhase::Blocked => None,
        PoolPhase::ProRata => {
            proof {
                lemma_floor_bounds(
                    deposit_amount as int * total_lp_supply as int,
                    total_pool_value as int,
                );
            }
            mul_div_floor(deposit_amount, total_lp_supply, total_pool_value)
        },
    }
}

/// Collateral to pay out for burning claim tokens.
///
/// Returns `None` when there are no claim tokens outstanding, and otherwise
/// `floor(lp_amount * total_pool_value / total_lp_supply)`, or `None` where
/// that quotient exceeds 64 bits. Rounding is always down: the payout is
/// never worth more than the tokens burned.
pub fn calc_collateral_for_withdraw(total_lp_supply: u64, total_pool_value: u64, lp_amount: u64) -> (collateral:
    Option<u64>)
    ensures
        collateral == collateral_for_withdraw(total_lp_supply, total_pool_value, lp_amount),
        total_lp_supply == 0 ==> collateral is None,
        collateral matches Some(paid) ==> paid * total_lp_supply <= lp_amount * total_pool_value,
{
    if total_lp_supply == 0 {
        return None;
    }
    proof {
        assert(0 <= lp_amount as int * total_pool_value as int) by (nonlinear_arith)
            requires
                0 <= lp_amount,
                0 <= total_pool_value,
        ;
        lemma_floor_bounds(lp_amount as int * total_pool_value as int, total_lp_supply as int);
    }
    mul_div_floor(lp_amount, total_pool_value, total_lp_supply)
}

/// Pool value from the two lifetime totals: `total_deposited -
/// total_withdrawn`, or `None` when more was withdrawn than deposited.
pub fn pool_value(total_deposited: u64, total_withdrawn: u64) -> (value: Option<u64>)
    ensures
        value == spec_pool_value(total_deposited, total_withdrawn),
        total_withdrawn > total_deposited <==> value is None,
        value matches Some(v) ==> v == total_deposited - total_withdrawn,
{
    total_deposited.checked_sub(total_withdrawn)
}

/// Pool value with accrued fees: `total_deposited - total_withdrawn +
/// total_fees_earned`, or `None` when the subtraction goes below zero or the
/// sum exceeds 64 bits.
pub fn pool_value_with_fees(total_deposited: u64, total_withdrawn: u64, total_fees_earned: u64) -> (value:
    Option<u64>)
    ensures
        value == spec_pool_value_with_fees(total_deposited, total_withdrawn, total_fees_earned),
        value is None <==> total_withdrawn > total_deposited || total_deposited - total_withdrawn
            + total_fees_earned > u64::MAX,
        value matches Some(v) ==> v == total_deposited - total_withdrawn + total_fees_earned,
{
    match total_deposited.checked_sub(total_withdrawn) {
        Some(net) => net.checked_add(total_fees_earned),
        None => None,
    }
}

/// Pool value with the reserve taken into account: `deposited - withdrawn -
/// flushed + returned`. Each subtraction is checked in turn, and so is the
/// final sum: any step that leaves the 64-bit range gives `None`.
pub fn pool_value_with_flush(deposited: u64, withdrawn: u64, flushed: u64, returned: u64) -> (value:
    Option<u64>)
    ensures
        value == spec_pool_value_with_flush(deposited, withdrawn, flushed, returned),
        value is None <==> withdrawn > deposited || flushed > deposited - withdrawn || deposited
            - withdrawn - flushed + returned > u64::MAX,
        value matches Some(v) ==> v == deposited - withdrawn - flushed + returned,
{
    let after_withdrawals: u64 = match deposited.checked_sub(withdrawn) {
        Some(v) => v,
        None => { return None; },
    };
    let after_flush: u64 = match after_withdrawals.checked_sub(flushed) {
        Some(v) => v,
        None => { return None; },
    };
    after_flush.checked_add(returned)
}

/// How much could still be moved to the reserve: `total_deposited -
/// total_withdrawn - total_flushed`, saturating at zero. This is an advisory
/// query and never fails.
pub fn flush_available(total_deposited: u64, total_withdrawn: u64, total_flushed: u64) -> (available:
    u64)
    ensures
        available == spec_flush_available(total_deposited, total_withdrawn, total_flushed),
        available <= total_deposited,
        total_withdrawn + total_flushed <= total_deposited ==> available == total_deposited
            - total_withdrawn - total_flushed,
        total_withdrawn + total_flushed >= total_deposited ==> available == 0,
{
    total_deposited.saturating_sub(total_withdrawn).saturating_sub(total_flushed)
}

/// Claim tokens to mint for a deposit into the junior tranche, valued
/// against the junior sub-pool alone.
pub fn calc_junior_lp_for_deposit(junior_total_lp: u64, junior_balance: u64, deposit_amount: u64) -> (lp:
    Option<u64>)
    ensures
        lp == lp_for_deposit(junior_total_lp, junior_balance, deposit_amount),
        lp matches Some(minted) ==> minted * junior_balance <= deposit_amount * junior_total_lp,
{
    calc_lp_for_deposit(junior_total_lp, junior_balance, deposit_amount)
}

/// Collateral for burning junior claim tokens, valued against the junior
/// sub-pool alone: losses taken by the junior balance lower the payout.
pub fn calc_junior_collateral_for_withdraw(junior_total_lp: u64, junior_balance: u64, lp_amount: u64) -> (collateral:
    Option<u64>)
    ensures
        collateral == collateral_for_withdraw(junior_total_lp, junior_balance, lp_amount),
        collateral matches Some(paid) ==> paid * junior_total_lp <= lp_amount * junior_balance,
{
    calc_collateral_for_withdraw(junior_total_lp, junior_balance, lp_amount)
}

/// Collateral for burning senior claim tokens, valued against the senior
/// sub-pool alone.
pub fn calc_senior_collateral_for_withdraw(senior_total_lp: u64, senior_balance: u64, lp_amount: u64) -> (collateral:
    Option<u64>)
    ensures
        collateral == collateral_for_withdraw(senior_total_lp, senior_balance, lp_amount),
        collateral matches Some(paid) ==> paid * senior_total_lp <= lp_amount * senior_balance,
{
    calc_collateral_for_withdraw(senior_total_lp, senior_balance, lp_amount)
}

/// Weight of the senior tranche per unit of balance, in basis points.
pub const SENIOR_WEIGHT_BPS: u64 = 10_000;

/// How a loss falls on the two tranches: the junior balance absorbs it
/// first, the senior balance takes what is left, and what neither can cover
/// falls on nobody.
pub open spec fn loss_split(junior_balance: int, senior_balance: int, loss: int) -> (int, int) {
    if loss <= junior_balance {
        (loss, 0)
    } else if loss - junior_balance <= senior_balance {
        (junior_balance, loss - junior_balance)
    } else {
        (junior_balance, senior_balance)
    }
}

/// How a fee is shared: each tranche weighs in with its balance, the junior
/// balance multiplied by `mult_bps` and the senior by `SENIOR_WEIGHT_BPS`.
/// The junior tranche gets `floor(fee * junior_weight / total_weight)` and
/// the senior tranche the rest. With no weight at all nothing is paid.
pub open spec fn fee_split(junior_balance: int, senior_balance: int, mult_bps: int, fee: int) -> (
    int,
    int,
) {
    let junior_weight = junior_balance * mult_bps;
    let total_weight = junior_weight + senior_balance * 10_000;
    if total_weight == 0 {
        (0, 0)
    } else {
        (fee * junior_weight / total_weight, fee - fee * junior_weight / total_weight)
    }
}

/// Splits a loss between the tranches, junior first.
///
/// Returns `(junior_loss, senior_loss)`. The junior tranche absorbs the loss
/// up to its whole balance; only what exceeds it reaches the senior tranche,
/// and the two together never lose more than they hold.
pub fn distribute_loss(junior_balance: u64, senior_balance: u64, loss_amount: u64) -> (losses: (
    u64,
    u64,
))
    ensures
        (losses.0 as int, losses.1 as int) == loss_split(
            junior_balance as int,
            senior_balance as int,
            loss_amount as int,
        ),
        losses.0 + losses.1 <= loss_amount,
        losses.0 <= junior_balance,
        losses.1 <= senior_balance,
        losses.1 > 0 ==> losses.0 == junior_balance,
        loss_amount <= junior_balance ==> losses.1 == 0,
        loss_amount <= junior_balance + senior_balance ==> losses.0 + losses.1 == loss_amount,
{
    let total: u64 = junior_balance.saturating_add(senior_balance);
    let capped_loss: u64 = if loss_amount <= total {
        loss_amount
    } else {
        total
    };
    if capped_loss <= junior_balance {
        (capped_loss, 0)
    } else {
        (junior_balance, capped_loss - junior_balance)
    }
}

/// Upper bound on a total fee weight: `u64::MAX * (u16::MAX + 10_000)` is
/// below it.
const WEIGHT_LIMIT: u128 = 0x2_0000_0000_0000_0000_0000;

/// `floor(amount * part / whole)` for weights beyond 64 bits.
///
/// The product can exceed 128 bits, so `amount` is split into two 32-bit
/// halves and the division is carried out in two steps.
fn scale_by_weight(amount: u64, part: u128, whole: u128) -> (scaled: u64)
    requires
        part <= whole,
        0 < whole < WEIGHT_LIMIT,
    ensures
        scaled == amount as int * part as int / whole as int,
        scaled <= amount,
{
    let high: u128 = (amount / 0x1_0000_0000) as u128;
    let low: u128 = (amount % 0x1_0000_0000) as u128;
    assert(high * part < 0x1_0000_0000 * WEIGHT_LIMIT && low * part < 0x1_0000_0000
        * WEIGHT_LIMIT) by (nonlinear_arith)
        requires
            high < 0x1_0000_0000,
            low < 0x1_0000_0000,
            part < WEIGHT_LIMIT,
    ;
    let high_product: u128 = high * part;
    let high_quotient: u128 = high_product / whole;
    let high_rest: u128 = high_product % whole;
    let low_product: u128 = high_rest * 0x1_0000_0000 + low * part;
    let low_quotient: u128 = low_product / whole;
    proof {
        let a = amount as int;
        let p = part as int;
        let w = whole as int;
        let q1 = high_quotient as int;
        let q0 = low_quotient as int;
        let r0 = low_product as int % w;
        lemma_scaled_floor_le(a, p, w);
        lemma_fundamental_div_mod(high_product as int, w);
        lemma_fundamental_div_mod(low_product as int, w);
        assert(a * p == (q1 * 0x1_0000_0000 + q0) * w + r0 && 0 <= r0 < w) by (nonlinear_arith)
            requires
                a == high * 0x1_0000_0000 + low,
                high_product == high * p,
                high_product == w * q1 + high_rest,
                low_product == high_rest * 0x1_0000_0000 + low * p,
                low_product == w * q0 + r0,
                0 <= r0 < w,
        ;
        assert(a * p < (q1 * 0x1_0000_0000 + q0 + 1) * w) by (nonlinear_arith)
            requires
                a * p == (q1 * 0x1_0000_0000 + q0) * w + r0,
                r0 < w,
        ;
        lemma_floor_unique(a * p, w, q1 * 0x1_0000_0000 + q0);
    }
    (high_quotient * 0x1_0000_0000 + low_quotient) as u64
}

/// Splits a fee between the tranches by weighted balance.
///
/// Returns `(junior_fee, senior_fee)`. The junior weight is the junior
/// balance times `junior_fee_mult_bps` (20000 pays the junior tranche twice
/// the senior rate per unit of balance), the senior weight is the senior
/// balance times `SENIOR_WEIGHT_BPS`. The junior fee is the weighted share
/// rounded down and the senior fee is the remainder, so the two never exceed
/// `total_fee`. Where the total weight is zero both are zero.
pub fn distribute_fees(
    junior_balance: u64,
    senior_balance: u64,
    junior_fee_mult_bps: u16,
    total_fee: u64,
) -> (fees: (u64, u64))
    ensures
        (fees.0 as int, fees.1 as int) == fee_split(
            junior_balance as int,
            senior_balance as int,
            junior_fee_mult_bps as int,
            total_fee as int,
        ),
        fees.0 + fees.1 <= total_fee,
        junior_balance * junior_fee_mult_bps + senior_balance * 10_000 > 0 ==> fees.0 + fees.1
            == total_fee,
        junior_balance * junior_fee_mult_bps + senior_balance * 10_000 == 0 ==> fees == (
            0u64,
            0u64,
        ),
{
    assert(junior_balance * junior_fee_mult_bps <= u64::MAX * u16::MAX && senior_balance * 10_000
        <= u64::MAX * 10_000 && 0 <= junior_balance * junior_fee_mult_bps) by (nonlinear_arith)
        requires
            0 <= junior_balance <= u64::MAX,
            0 <= junior_fee_mult_bps <= u16::MAX,
            0 <= senior_balance <= u64::MAX,
    ;
    let junior_weight: u128 = (junior_balance as u128) * (junior_fee_mult_bps as u128);
    let senior_weight: u128 = (senior_balance as u128) * (SENIOR_WEIGHT_BPS as u128);
    let total_weight: u128 = junior_weight + senior_weight;
    if total_weight == 0 {
        return (0, 0);
    }
    let junior_fee: u64 = scale_by_weight(total_fee, junior_weight, total_weight);
    let senior_fee: u64 = total_fee - junior_fee;
    (junior_fee, senior_fee)
}

/// Whether a loss leaves the senior tranche untouched: it does exactly when
/// the junior balance covers the whole loss. The senior balance plays no
/// part in the answer.
pub fn senior_protected(junior_balance: u64, _senior_balance: u64, loss_amount: u64) -> (protected:
    bool)
    ensures
        protected <==> loss_amount <= junior_balance,
        protected ==> loss_split(
            junior_balance as int,
            _senior_balance as int,
            loss_amount as int,
        ).1 == 0,
{
    loss_amount <= junior_balance
}

} // verus!
