//! Failure taxonomy of the engine.
//!
//! Every operation returns an ordinary `Result` whose error carries enough
//! context (the asset in question) to reconstruct the violated condition.
//! A funding accrual that is not yet due is *not* an error; it is reported
//! as a distinct outcome by the funding engine.

use vstd::prelude::*;

verus! {

#[derive(Clone, Copy, Debug, PartialEq, Eq, Structural)]
pub enum ContractError {
    /// The caller lacks the role (authority, manager, liquidator) the call needs.
    Unauthorized,
    /// The asset is not whitelisted, is of the wrong stability or shortability
    /// class for the requested operation, or the two assets of a swap coincide.
    InvalidAsset { asset: u64 },
    /// A zero amount where a positive one is required, or a requested change
    /// larger than the available size, collateral or reserve.
    InvalidAmount,
    /// Swap or leverage is toggled off in the configuration.
    DisabledFeature,
    /// The custody-reported balance is smaller than the pool balance the
    /// ledger would record, i.e. funds were never actually deposited.
    BalanceMismatch { asset: u64 },
    /// Decreasing the pool would leave it below the reserved amount
    /// (or below the configured buffer, for swaps).
    InsufficientReserves { asset: u64 },
    /// A fixed-point operation overflowed or underflowed.
    ArithmeticFailure,
}

} // verus!
