//! Withdrawal policy: the gates a deposit or withdrawal passes before any
//! share math runs. Each is a plain comparison on values the caller
//! supplies; none reads a clock or keeps state.

use vstd::prelude::*;
use crate::arith::{lemma_floor_monotone, lemma_scaled_floor_le};

verus! {

/// Basis points in a whole.
pub const BPS_DENOMINATOR: u64 = 10_000;

/// `deposit_slot + cooldown_slots`, saturating at `limit`.
pub open spec fn saturating_end(deposit_slot: int, cooldown_slots: int, limit: int) -> int {
    if deposit_slot + cooldown_slots > limit {
        limit
    } else {
        deposit_slot + cooldown_slots
    }
}

/// The first slot at which a deposit made at `deposit_slot` may be
/// withdrawn. The sum saturates at the last slot: a cooldown that runs past
/// the end of time never looks elapsed because of wraparound.
pub open spec fn cooldown_end(deposit_slot: int, cooldown_slots: int) -> int {
    saturating_end(deposit_slot, cooldown_slots, u64::MAX as int)
}

/// The least value a pool may be drawn down to: `hwm_value * floor_bps /
/// 10000`, rounded down.
pub open spec fn floor_of(hwm_value: int, floor_bps: int) -> int {
    hwm_value * floor_bps / 10_000
}

/// Whether the cooldown after the last deposit has passed:
/// `current_slot >= deposit_slot + cooldown_slots`, the sum saturating.
pub fn cooldown_elapsed(current_slot: u64, deposit_slot: u64, cooldown_slots: u64) -> (elapsed:
    bool)
    ensures
        elapsed <==> current_slot >= cooldown_end(deposit_slot as int, cooldown_slots as int),
        deposit_slot + cooldown_slots <= u64::MAX ==> (elapsed <==> current_slot >= deposit_slot
            + cooldown_slots),
{
    current_slot >= deposit_slot.saturating_add(cooldown_slots)
}

/// Whether a deposit would take the total past the cap:
/// `cap > 0 && current_total + new_amount > cap`. A cap of zero means no
/// cap. A sum beyond 64 bits exceeds every cap.
pub fn exceeds_cap(current_total: u64, new_amount: u64, cap: u64) -> (exceeds: bool)
    ensures
        exceeds <==> cap > 0 && current_total + new_amount > cap,
{
    if cap == 0 {
        return false;
    }
    match current_total.checked_add(new_amount) {
        Some(total) => total > cap,
        None => true,
    }
}

/// The withdrawal floor under a high-water mark: `floor(hwm_value *
/// floor_bps / 10000)`, or `None` for a `floor_bps` above 10000, which would
/// put the floor above the mark itself.
pub fn hwm_floor(hwm_value: u64, floor_bps: u16) -> (floor: Option<u64>)
    ensures
        floor_bps > 10_000 <==> floor is None,
        floor matches Some(f) ==> f == floor_of(hwm_value as int, floor_bps as int) && f
            <= hwm_value,
{
    if floor_bps as u64 > BPS_DENOMINATOR {
        return None;
    }
    proof {
        lemma_scaled_floor_le(hwm_value as int, floor_bps as int, 10_000);
        assert(hwm_value * floor_bps <= u64::MAX * 10_000) by (nonlinear_arith)
            requires
                0 <= hwm_value <= u64::MAX,
                0 <= floor_bps <= 10_000,
        ;
    }
    let scaled: u128 = (hwm_value as u128) * (floor_bps as u128);
    Some((scaled / (BPS_DENOMINATOR as u128)) as u64)
}

/// Whether withdrawing `amount` from a pool worth `pool_value` is blocked by
/// the floor under `hwm_value`. It is blocked when what would be left is
/// below the floor, when the pool does not hold `amount` at all, and when
/// `floor_bps` is above 10000.
pub fn breaches_hwm_floor(pool_value: u64, amount: u64, hwm_value: u64, floor_bps: u16) -> (blocked:
    bool)
    ensures
        blocked <==> floor_bps > 10_000 || amount > pool_value || pool_value - amount < floor_of(
            hwm_value as int,
            floor_bps as int,
        ),
{
    let floor: u64 = match hwm_floor(hwm_value, floor_bps) {
        Some(f) => f,
        None => { return true; },
    };
    match pool_value.checked_sub(amount) {
        Some(left) => left < floor,
        None => true,
    }
}

/// The high-water mark after the pool was seen at `pool_value`: the greater
/// of the two.
pub fn record_hwm(hwm_value: u64, pool_value: u64) -> (raised: u64)
    ensures
        raised >= hwm_value,
        raised >= pool_value,
        raised == hwm_value || raised == pool_value,
{
    if pool_value > hwm_value {
        pool_value
    } else {
        hwm_value
    }
}

/// The floor never falls when the high-water mark rises.
pub proof fn lemma_floor_monotone_in_hwm(lower: u64, higher: u64, floor_bps: u16)
    requires
        lower <= higher,
    ensures
        floor_of(lower as int, floor_bps as int) <= floor_of(higher as int, floor_bps as int),
{
    assert(0 <= lower * floor_bps <= higher * floor_bps) by (nonlinear_arith)
        requires
            0 <= lower <= higher,
            0 <= floor_bps,
    ;
    lemma_floor_monotone(lower as int * floor_bps as int, higher as int * floor_bps as int, 10_000);
}

/// With at most 10000 basis points the floor never exceeds the mark.
pub proof fn lemma_floor_at_most_hwm(hwm_value: u64, floor_bps: u16)
    requires
        floor_bps <= 10_000,
    ensures
        0 <= floor_of(hwm_value as int, floor_bps as int) <= hwm_value,
{
    lemma_scaled_floor_le(hwm_value as int, floor_bps as int, 10_000);
}

} // verus!
