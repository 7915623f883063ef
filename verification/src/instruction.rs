//! Instructions of the staking program and their wire format.
//!
//! An instruction is one tag byte followed by its fields in order, integers
//! little-endian and keys as their 32 bytes. Bytes after the last field are
//! ignored.

use vstd::prelude::*;
use crate::bytes::{read_key, read_u128_le, read_u16_le, read_u64_le, u128_from_le, u16_from_le, u64_from_le};
use crate::error::ProcessError;

verus! {

/// What the staking program can be asked to do.
#[derive(Debug)]
pub enum StakeInstruction {
    /// Create the stake pool for a slab, with its LP mint and vault.
    InitPool { cooldown_slots: u64, deposit_cap: u64 },
    /// Deposit collateral into the vault and mint LP tokens pro rata.
    Deposit { amount: u64 },
    /// Burn LP tokens and withdraw collateral, once the cooldown has passed.
    Withdraw { lp_amount: u64 },
    /// Move collateral from the vault into the wrapper's insurance fund.
    FlushToInsurance { amount: u64 },
    /// Change the cooldown, the deposit cap, or both.
    UpdateConfig { new_cooldown_slots: Option<u64>, new_deposit_cap: Option<u64> },
    /// Hand the wrapper's admin authority to the pool address, once.
    TransferAdmin,
    /// Forward a new oracle authority to the wrapper.
    AdminSetOracleAuthority { new_authority: [u8; 32] },
    /// Forward a new risk threshold to the wrapper.
    AdminSetRiskThreshold { new_threshold: u128 },
    /// Forward a new maintenance fee to the wrapper.
    AdminSetMaintenanceFee { new_fee: u128 },
    /// Resolve the market: the wrapper takes withdrawals only from here on.
    AdminResolveMarket,
    /// Bring insurance back from the wrapper into the vault.
    AdminWithdrawInsurance { amount: u64 },
    /// Set the wrapper's insurance withdrawal policy.
    AdminSetInsurancePolicy {
        authority: [u8; 32],
        min_withdraw_base: u64,
        max_withdraw_bps: u16,
        cooldown_slots: u64,
    },
}

/// How many bytes of fields follow the tag, or `None` for a tag that names
/// no instruction.
pub open spec fn payload_len(tag: u8) -> Option<nat> {
    match tag {
        0 => Some(16),
        1 => Some(8),
        2 => Some(8),
        3 => Some(8),
        4 => Some(18),
        5 => Some(0),
        6 => Some(32),
        7 => Some(16),
        8 => Some(16),
        9 => Some(0),
        10 => Some(8),
        11 => Some(50),
        _ => None,
    }
}

/// Whether `data` holds an instruction: a known tag and at least the bytes
/// of its fields.
pub open spec fn well_formed(data: Seq<u8>) -> bool {
    &&& data.len() >= 1
    &&& payload_len(data[0]) matches Some(n)
    &&& data.len() >= 1 + n
}

/// An optional 64-bit field: a flag byte, which is zero for `None`, and
/// eight bytes that are read only when the flag is set.
pub open spec fn optional_u64(field: Seq<u8>) -> Option<int>
    recommends
        field.len() == 9,
{
    if field[0] != 0 {
        Some(u64_from_le(field.subrange(1, 9)))
    } else {
        None
    }
}

impl StakeInstruction {
    /// Whether `data` is the wire form of this instruction, up to bytes
    /// after its last field.
    pub open spec fn encoded_by(self, data: Seq<u8>) -> bool {
        &&& well_formed(data)
        &&& match self {
            StakeInstruction::InitPool { cooldown_slots, deposit_cap } => {
                &&& data[0] == 0
                &&& cooldown_slots == u64_from_le(data.subrange(1, 9))
                &&& deposit_cap == u64_from_le(data.subrange(9, 17))
            },
            StakeInstruction::Deposit { amount } => {
                &&& data[0] == 1
                &&& amount == u64_from_le(data.subrange(1, 9))
            },
            StakeInstruction::Withdraw { lp_amount } => {
                &&& data[0] == 2
                &&& lp_amount == u64_from_le(data.subrange(1, 9))
            },
            StakeInstruction::FlushToInsurance { amount } => {
                &&& data[0] == 3
                &&& amount == u64_from_le(data.subrange(1, 9))
            },
            StakeInstruction::UpdateConfig { new_cooldown_slots, new_deposit_cap } => {
                &&& data[0] == 4
                &&& match new_cooldown_slots {
                    Some(v) => optional_u64(data.subrange(1, 10)) == Some(v as int),
                    None => optional_u64(data.subrange(1, 10)) is None,
                }
                &&& match new_deposit_cap {
                    Some(v) => optional_u64(data.subrange(10, 19)) == Some(v as int),
                    None => optional_u64(data.subrange(10, 19)) is None,
                }
            },
            StakeInstruction::TransferAdmin => data[0] == 5,
            StakeInstruction::AdminSetOracleAuthority { new_authority } => {
                &&& data[0] == 6
                &&& new_authority@ == data.subrange(1, 33)
            },
            StakeInstruction::AdminSetRiskThreshold { new_threshold } => {
                &&& data[0] == 7
                &&& new_threshold == u128_from_le(data.subrange(1, 17))
            },
            StakeInstruction::AdminSetMaintenanceFee { new_fee } => {
                &&& data[0] == 8
                &&& new_fee == u128_from_le(data.subrange(1, 17))
            },
            StakeInstruction::AdminResolveMarket => data[0] == 9,
            StakeInstruction::AdminWithdrawInsurance { amount } => {
                &&& data[0] == 10
                &&& amount == u64_from_le(data.subrange(1, 9))
            },
            StakeInstruction::AdminSetInsurancePolicy {
                authority,
                min_withdraw_base,
                max_withdraw_bps,
                cooldown_slots,
            } => {
                &&& data[0] == 11
                &&& authority@ == data.subrange(1, 33)
                &&& min_withdraw_base == u64_from_le(data.subrange(33, 41))
                &&& max_withdraw_bps == u16_from_le(data.subrange(41, 43))
                &&& cooldown_slots == u64_from_le(data.subrange(43, 51))
            },
        }
    }

    /// Decodes an instruction from its wire form.
    ///
    /// Succeeds exactly on well-formed data, with the instruction that the
    /// data encodes. Empty data, an unknown tag and a payload shorter than
    /// the tag's fields all give `InvalidInstructionData`.
    pub fn unpack(data: &[u8]) -> (decoded: Result<StakeInstruction, ProcessError>)
        ensures
            well_formed(data@) <==> decoded is Ok,
            decoded matches Ok(instruction) ==> instruction.encoded_by(data@),
            decoded matches Err(e) ==> e == ProcessError::InvalidInstructionData,
    {
        if data.len() < 1 {
            return Err(ProcessError::InvalidInstructionData);
        }
        let tag: u8 = data[0];
        let rest_len: usize = data.len() - 1;
        match tag {
            0 => {
                if rest_len < 16 {
                    return Err(ProcessError::InvalidInstructionData);
                }
                let cooldown_slots: u64 = read_u64_le(data, 1);
                let deposit_cap: u64 = read_u64_le(data, 9);
                Ok(StakeInstruction::InitPool { cooldown_slots, deposit_cap })
            },
            1 => {
                if rest_len < 8 {
                    return Err(ProcessError::InvalidInstructionData);
                }
                let amount: u64 = read_u64_le(data, 1);
                Ok(StakeInstruction::Deposit { amount })
            },
            2 => {
                if rest_len < 8 {
                    return Err(ProcessError::InvalidInstructionData);
                }
                let lp_amount: u64 = read_u64_le(data, 1);
                Ok(StakeInstruction::Withdraw { lp_amount })
            },
            3 => {
                if rest_len < 8 {
                    return Err(ProcessError::InvalidInstructionData);
                }
                let amount: u64 = read_u64_le(data, 1);
                Ok(StakeInstruction::FlushToInsurance { amount })
            },
            4 => {
                if rest_len < 18 {
                    return Err(ProcessError::InvalidInstructionData);
                }
                let has_cooldown: bool = data[1] != 0;
                let cooldown: u64 = read_u64_le(data, 2);
                let has_cap: bool = data[10] != 0;
                let cap: u64 = read_u64_le(data, 11);
                proof {
                    let first = data@.subrange(1, 10);
                    let second = data@.subrange(10, 19);
                    assert(first.subrange(1, 9) =~= data@.subrange(2, 10));
                    assert(second.subrange(1, 9) =~= data@.subrange(11, 19));
                }
                Ok(
                    StakeInstruction::UpdateConfig {
                        new_cooldown_slots: if has_cooldown {
                            Some(cooldown)
                        } else {
                            None
                        },
                        new_deposit_cap: if has_cap {
                            Some(cap)
                        } else {
                            None
                        },
                    },
                )
            },
            5 => Ok(StakeInstruction::TransferAdmin),
            6 => {
                if rest_len < 32 {
                    return Err(ProcessError::InvalidInstructionData);
                }
                let new_authority: [u8; 32] = read_key(data, 1);
                Ok(StakeInstruction::AdminSetOracleAuthority { new_authority })
            },
            7 => {
                if rest_len < 16 {
                    return Err(ProcessError::InvalidInstructionData);
                }
                let new_threshold: u128 = read_u128_le(data, 1);
                Ok(StakeInstruction::AdminSetRiskThreshold { new_threshold })
            },
            8 => {
                if rest_len < 16 {
                    return Err(ProcessError::InvalidInstructionData);
                }
                let new_fee: u128 = read_u128_le(data, 1);
                Ok(StakeInstruction::AdminSetMaintenanceFee { new_fee })
            },
            9 => Ok(StakeInstruction::AdminResolveMarket),
            10 => {
                if rest_len < 8 {
                    return Err(ProcessError::InvalidInstructionData);
                }
                let amount: u64 = read_u64_le(data, 1);
                Ok(StakeInstruction::AdminWithdrawInsurance { amount })
            },
            11 => {
                if rest_len < 50 {
                    return Err(ProcessError::InvalidInstructionData);
                }
                let authority: [u8; 32] = read_key(data, 1);
                let min_withdraw_base: u64 = read_u64_le(data, 33);
                let max_withdraw_bps: u16 = read_u16_le(data, 41);
                let cooldown_slots: u64 = read_u64_le(data, 43);
                Ok(
                    StakeInstruction::AdminSetInsurancePolicy {
                        authority,
                        min_withdraw_base,
                        max_withdraw_bps,
                        cooldown_slots,
                    },
                )
            },
            _ => Err(ProcessError::InvalidInstructionData),
        }
    }
}

/// Data decodes to one instruction only: two instructions with the same
/// wire form have the same fields.
pub proof fn lemma_decoding_unique(data: Seq<u8>, a: StakeInstruction, b: StakeInstruction)
    requires
        a.encoded_by(data),
        b.encoded_by(data),
    ensures
        a == b,
{
    match (a, b) {
        (
            StakeInstruction::AdminSetOracleAuthority { new_authority: x },
            StakeInstruction::AdminSetOracleAuthority { new_authority: y },
        ) => {
            assert(x@ == y@);
            assert(x =~= y);
        },
        (
            StakeInstruction::AdminSetInsurancePolicy { authority: x, .. },
            StakeInstruction::AdminSetInsurancePolicy { authority: y, .. },
        ) => {
            assert(x@ == y@);
            assert(x =~= y);
        },
        _ => {},
    }
}

} // verus!
