//! Accounting and risk engine for a collateralized leveraged-trading pool.
//!
//! The engine tracks, per whitelisted asset, a shared liquidity pool, funding
//! accrual between longs and shorts, fee collection, margin positions and
//! their forced liquidation, and mint/redeem of a synthetic stable asset.
//!
//! It is a deterministic state machine: every external fact it needs (the
//! current time, oracle prices, custody balances, authorization answers) is
//! passed in as a plain argument, so every operation is replayable from an
//! ordered log of calls. Each operation either commits all of its ledger
//! mutations or, on any failure, leaves the state exactly as it was.

use vstd::prelude::*;

pub mod asset;
pub mod assets;
pub mod config;
pub mod error;
pub mod events;
pub mod fees;
pub mod funding;
pub mod laws;
pub mod liquidation;
pub mod math;
pub mod msg;
pub mod pnl;
pub mod position;
pub mod positions;
pub mod reduce;
pub mod pricing;
pub mod roster;
pub mod vault;

pub use crate::error::ContractError;
pub use crate::asset::AssetState;
pub use crate::events::Notification;
pub use crate::funding::FundingOutcome;
pub use crate::liquidation::LiquidationState;
pub use crate::msg::{CallContext, InitParams, QueryBankMsg, QueryMsg, VaultOp};
pub use crate::position::{Position, PositionKey};
pub use crate::pricing::PricePair;
pub use crate::vault::{DecreaseOutcome, LiquidationOutcome, Vault};

verus! {

/// Basis-point denominator for every fee schedule.
pub const BASIS_POINTS_DIVISOR: u128 = 10000;

/// Fixed-point scale of the cumulative funding index.
pub const FUNDING_RATE_PRECISION: u128 = 1000000;

/// Fixed-point scale of oracle prices (USD per whole asset unit).
pub const PRICE_PRECISION: u128 = 1000000000000000000000000000000;

/// Decimal count of the synthetic stable asset.
pub const USDG_DECIMALS: u32 = 6;

/// Smallest admissible leverage, in basis points (1x).
pub const MIN_LEVERAGE: u128 = 10000;

/// Upper bound an administrator may give any fee schedule entry.
pub const MAX_FEE_BASIS_POINTS: u128 = 500;

/// Upper bound on the configured fixed liquidation fee (USD).
pub const MAX_LIQUIDATION_FEE_USD: u128 = 100;

/// Shortest admissible funding interval (seconds).
pub const MIN_FUNDING_RATE_INTERVAL: u64 = 3600;

/// Upper bound on the standard and stable funding-rate factors.
pub const MAX_FUNDING_RATE_FACTOR: u128 = 10000;

/// Largest decimal count a whitelisted asset may declare.
pub const MAX_TOKEN_DECIMALS: u32 = 18;

} // verus!
