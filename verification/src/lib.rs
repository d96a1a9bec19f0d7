//! Ledger engine for interest-bearing bond positions.
//!
//! Users deposit a fixed unit of value to open a position; positions accrue
//! reward linearly over time against a shared pool, and claims pay out the
//! accrued reward subject to an early-withdrawal penalty, a per-position
//! lifetime cap, and optional automatic reinvestment into a new position.
use vstd::prelude::*;

pub mod error;
pub mod instruction;
pub mod assertions;
pub mod calc;
pub mod codec;
pub mod keys;
pub mod pda;
pub mod processor;
pub mod state;
pub mod token;

verus! {

/// Smallest-unit denomination of one whole token (nine decimals).
pub const SHELLS_PER_TESTUDO: u64 = 1_000_000_000;

/// Seconds in one day, the granularity of the emission rate.
pub const SECONDS_PER_DAY: u64 = 86_400;

/// The fixed deposit that opens one bond: ten whole tokens.
pub const BOND_DEPOSIT: u64 = 10 * SHELLS_PER_TESTUDO;

/// What auto-compounding reserves out of a claim to fund the new bond:
/// eight whole tokens.
pub const COMPOUND_RESERVE: u64 = 8 * SHELLS_PER_TESTUDO;

/// Default emission per bond per day: 0.055 tokens in smallest units.
pub const DAILY_EMISSION_RATE: u64 = 55_000_000;

/// Default lifetime cap per bond: twenty whole tokens.
pub const MAX_EMISSION_PER_BOND: u64 = 20_000_000_000;

/// Default early-claim penalty: five percent, in basis points.
pub const CLAIM_PENALTY: u16 = 500;

} // verus!
