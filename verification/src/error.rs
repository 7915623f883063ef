//! Errors of the staking program.

use vstd::prelude::*;

verus! {

/// What the staking rules can refuse. Each kind has a fixed numeric code,
/// counted from zero in the order of declaration.
#[derive(Debug, Clone, Copy, PartialEq, Eq, Structural)]
pub enum StakeError {
    /// Pool already initialized for this slab.
    AlreadyInitialized,
    /// Pool not initialized.
    NotInitialized,
    /// The caller is not the admin, or not the owner of the record.
    Unauthorized,
    /// Cooldown period not elapsed.
    CooldownNotElapsed,
    /// Insufficient LP tokens.
    InsufficientLpTokens,
    /// Zero amount.
    ZeroAmount,
    /// Arithmetic overflow, or a deposit into a blocked pool.
    Overflow,
    /// The LP mint does not match the pool's.
    InvalidMint,
    /// Market is resolved: no new deposits.
    MarketResolved,
    /// Deposit cap exceeded.
    DepositCapExceeded,
    /// An account is not the one the pool or the derivation names.
    InvalidPda,
    /// Admin already transferred to the pool address.
    AdminAlreadyTransferred,
    /// Admin not yet transferred.
    AdminNotTransferred,
    /// Insufficient vault balance for withdrawal.
    InsufficientVaultBalance,
    /// The wrapper program is not the one the pool names.
    InvalidPercolatorProgram,
    /// A call into the wrapper failed.
    CpiFailed,
}

/// Number of error kinds; the codes are `0..STAKE_ERROR_COUNT`.
pub const STAKE_ERROR_COUNT: u32 = 16;

impl StakeError {
    /// The numeric code of an error.
    pub open spec fn code_of(self) -> u32 {
        match self {
            StakeError::AlreadyInitialized => 0,
            StakeError::NotInitialized => 1,
            StakeError::Unauthorized => 2,
            StakeError::CooldownNotElapsed => 3,
            StakeError::InsufficientLpTokens => 4,
            StakeError::ZeroAmount => 5,
            StakeError::Overflow => 6,
            StakeError::InvalidMint => 7,
            StakeError::MarketResolved => 8,
            StakeError::DepositCapExceeded => 9,
            StakeError::InvalidPda => 10,
            StakeError::AdminAlreadyTransferred => 11,
            StakeError::AdminNotTransferred => 12,
            StakeError::InsufficientVaultBalance => 13,
            StakeError::InvalidPercolatorProgram => 14,
            StakeError::CpiFailed => 15,
        }
    }

    /// The numeric code under which this error is reported.
    pub fn code(&self) -> (code: u32)
        ensures
            code == self.code_of(),
            code < STAKE_ERROR_COUNT,
    {
        match self {
            StakeError::AlreadyInitialized => 0,
            StakeError::NotInitialized => 1,
            StakeError::Unauthorized => 2,
            StakeError::CooldownNotElapsed => 3,
            StakeError::InsufficientLpTokens => 4,
            StakeError::ZeroAmount => 5,
            StakeError::Overflow => 6,
            StakeError::InvalidMint => 7,
            StakeError::MarketResolved => 8,
            StakeError::DepositCapExceeded => 9,
            StakeError::InvalidPda => 10,
            StakeError::AdminAlreadyTransferred => 11,
            StakeError::AdminNotTransferred => 12,
            StakeError::InsufficientVaultBalance => 13,
            StakeError::InvalidPercolatorProgram => 14,
            StakeError::CpiFailed => 15,
        }
    }

    /// The error with the given code, or `None` for a code that no error
    /// has.
    pub fn from_code(code: u32) -> (error: Option<StakeError>)
        ensures
            code >= STAKE_ERROR_COUNT <==> error is None,
            error matches Some(e) ==> e.code_of() == code,
    {
        match code {
            0 => Some(StakeError::AlreadyInitialized),
            1 => Some(StakeError::NotInitialized),
            2 => Some(StakeError::Unauthorized),
            3 => Some(StakeError::CooldownNotElapsed),
            4 => Some(StakeError::InsufficientLpTokens),
            5 => Some(StakeError::ZeroAmount),
            6 => Some(StakeError::Overflow),
            7 => Some(StakeError::InvalidMint),
            8 => Some(StakeError::MarketResolved),
            9 => Some(StakeError::DepositCapExceeded),
            10 => Some(StakeError::InvalidPda),
            11 => Some(StakeError::AdminAlreadyTransferred),
            12 => Some(StakeError::AdminNotTransferred),
            13 => Some(StakeError::InsufficientVaultBalance),
            14 => Some(StakeError::InvalidPercolatorProgram),
            15 => Some(StakeError::CpiFailed),
            _ => None,
        }
    }
}

/// No two errors share a code.
pub proof fn lemma_codes_distinct(a: StakeError, b: StakeError)
    requires
        a.code_of() == b.code_of(),
    ensures
        a == b,
{
}

/// Why an instruction was refused: one of the runtime's own reasons, or one
/// of the staking rules.
#[derive(Debug, Clone, Copy, PartialEq, Eq, Structural)]
pub enum ProcessError {
    /// The instruction data is empty, too short, or has an unknown tag.
    InvalidInstructionData,
    /// Fewer accounts were passed than the instruction takes.
    NotEnoughAccountKeys,
    /// An account that has to sign did not.
    MissingRequiredSignature,
    /// The token program is not the SPL Token program.
    IncorrectProgramId,
    /// More was asked for than is there.
    InsufficientFunds,
    /// An account does not match its derivation.
    InvalidArgument,
    /// A staking rule refused; reported as a custom error with the rule's
    /// code.
    Stake(StakeError),
}

impl ProcessError {
    /// The custom code of a staking error, and nothing for the runtime's
    /// own reasons.
    pub open spec fn custom_code_of(self) -> Option<u32> {
        match self {
            ProcessError::Stake(e) => Some(e.code_of()),
            _ => None,
        }
    }

    /// The custom code under which this error is reported, if it is a
    /// staking error.
    pub fn custom_code(&self) -> (code: Option<u32>)
        ensures
            code == self.custom_code_of(),
    {
        match self {
            ProcessError::Stake(e) => Some(e.code()),
            _ => None,
        }
    }
}

impl From<StakeError> for ProcessError {
    fn from(e: StakeError) -> (err: ProcessError) {
        ProcessError::Stake(e)
    }
}

impl vstd::std_specs::convert::FromSpecImpl<StakeError> for ProcessError {
    open spec fn obeys_from_spec() -> bool {
        true
    }

    open spec fn from_spec(e: StakeError) -> ProcessError {
        ProcessError::Stake(e)
    }
}

} // verus!
