//! Share accounting for a pooled-collateral insurance vault.
//!
//! Deposits mint claim tokens in proportion to the pool's value, withdrawals
//! burn them, value moves to and from an external insurance reserve, and
//! losses and fees are split between a junior and a senior tranche. Every
//! conversion rounds down, so rounding dust stays with the pool.
//!
//! - `math`: share math, pool value and the tranche waterfall, as pure
//!   functions; `narrow` holds the same rules at 32-bit width.
//! - `policy`: cooldown, deposit cap and the high-water-mark floor.
//! - `state`: the pool ledger, the per-depositor record, and the addresses
//!   derived for them.
//! - `laws`: what holds of every deposit, redemption, flush and loss.
//! - `instruction`, `accounts`, `processor`: the program's instructions on
//!   the wire, their accounts by role, and what each handler decides.
//! - `cpi`: the instructions sent to the wrapper program, as plain data.
//! - `bytes`, `arith`: little-endian encoding and floor division.
//! - `runtime`: the two calls into the Solana crates, stated and not proved.
//!
//! The library never reads a clock, moves a token or touches an account:
//! callers hand it plain values and carry out what it answers.

pub mod accounts;
pub mod arith;
pub mod bytes;
pub mod cpi;
pub mod error;
pub mod instruction;
pub mod laws;
pub mod math;
pub mod narrow;
pub mod policy;
pub mod processor;
pub mod runtime;
pub mod state;
