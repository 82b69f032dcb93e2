//! Typed notifications emitted by the engine's operations.
//!
//! Notifications are purely observational: every numeric value they carry
//! is also an ordinary return value of the operation that produced it,
//! never the sole channel for a value consumed by later logic.

use vstd::prelude::*;

verus! {

#[derive(Clone, Copy, Debug, PartialEq, Eq, Structural)]
pub enum Notification {
    UpdateFundingRate { asset: u64, cumulative_funding_rate: u128 },
    DirectPoolDeposit { asset: u64, amount: u128 },
    BuyUsdg { account: u64, asset: u64, token_amount: u128, mint_amount: u128 },
    SellUsdg { account: u64, asset: u64, usdg_amount: u128, payout: u128 },
    Swap {
        account: u64,
        token_in: u64,
        token_out: u64,
        amount_in: u128,
        amount_out_after_fees: u128,
    },
    IncreasePosition {
        account: u64,
        collateral_asset: u64,
        index_asset: u64,
        collateral_delta_tokens: u128,
        size_delta: u128,
        is_long: bool,
        price: u128,
        fee_usd: u128,
    },
    DecreasePosition {
        account: u64,
        collateral_asset: u64,
        index_asset: u64,
        collateral_delta: u128,
        size_delta: u128,
        is_long: bool,
        price: u128,
        usd_out_after_fee: u128,
        payout_tokens: u128,
        realised_pnl: i128,
    },
    LiquidatePosition {
        account: u64,
        collateral_asset: u64,
        index_asset: u64,
        is_long: bool,
        margin_fee_usd: u128,
        mark_price: u128,
        liquidation_fee_tokens: u128,
    },
    WithdrawFees { asset: u64, amount: u128 },
}

} // verus!
