//! Typed operation records and the dispatch over them.
//!
//! Every mutating operation of the engine is one variant of `VaultOp`;
//! `execute` is a single match over that union. The shell gathers the
//! external facts an operation needs (time, oracle quotes, custody
//! balances, the caller identity) into a `CallContext` before invoking
//! the engine.

use vstd::prelude::*;

use crate::config::VaultConfig;
use crate::error::ContractError;
use crate::events::Notification;
use crate::position::PositionKey;
use crate::pricing::PricePair;
use crate::vault::{Vault, VaultView};

verus! {

/// Parameters of vault initialization.
#[derive(Clone, Copy, Debug, PartialEq, Eq, Structural)]
pub struct InitParams {
    pub authority: u64,
    pub router: u64,
    pub price_feed: u64,
    pub custody: u64,
    pub usdg_asset: u64,
    pub liquidation_fee_usd: u128,
    pub funding_rate_factor: u128,
    pub stable_funding_rate_factor: u128,
}

/// External facts gathered by the shell for one call: the caller's
/// identity, the externally supplied time, oracle quotes for the one or
/// two assets the operation touches (`price_a` for the collateral or
/// inbound asset, `price_b` for the index or outbound asset), and the
/// custody-reported balance of the asset whose pool may be credited.
#[derive(Clone, Copy, Debug, PartialEq, Eq, Structural)]
pub struct CallContext {
    pub caller: u64,
    pub now: u64,
    pub price_a: PricePair,
    pub price_b: PricePair,
    pub custody_balance: u128,
}

/// The flat operation union: one case per operation of the engine.
#[derive(Clone, Copy, Debug, PartialEq, Eq, Structural)]
pub enum VaultOp {
    SetInManagerMode { enabled: bool },
    SetManager { account: u64, active: bool },
    SetInPrivateLiquidationMode { enabled: bool },
    SetLiquidator { account: u64, active: bool },
    SetIsSwapEnabled { enabled: bool },
    SetIsLeverageEnabled { enabled: bool },
    SetMaxGasPrice { max_gas_price: u128 },
    SetGov { authority: u64 },
    SetPriceFeed { price_feed: u64 },
    SetMaxLeverage { max_leverage: u128 },
    SetBufferAmount { asset: u64, amount: u128 },
    SetMaxGlobalShortSize { asset: u64, amount: u128 },
    SetFees {
        tax_basis_points: u128,
        stable_tax_basis_points: u128,
        mint_burn_fee_basis_points: u128,
        swap_fee_basis_points: u128,
        stable_swap_fee_basis_points: u128,
        margin_fee_basis_points: u128,
        liquidation_fee_usd: u128,
        min_profit_time: u64,
        has_dynamic_fees: bool,
    },
    SetFundingRate {
        funding_interval: u64,
        funding_rate_factor: u128,
        stable_funding_rate_factor: u128,
    },
    SetTokenConfig {
        asset: u64,
        decimals: u32,
        token_weight: u128,
        min_profit_basis_points: u128,
        max_usdg_amount: u128,
        is_stable: bool,
        is_shortable: bool,
    },
    ClearTokenConfig { asset: u64 },
    WithdrawFees { asset: u64 },
    SetUsdgAmount { asset: u64, amount: u128 },
    DirectPoolDeposit { asset: u64, amount: u128 },
    BuyUsdg { asset: u64, token_amount: u128 },
    SellUsdg { asset: u64, usdg_amount: u128 },
    UpdateCumulativeFundingRate { asset: u64 },
    Swap { token_in: u64, token_out: u64, amount_in: u128 },
    IncreasePosition {
        account: u64,
        collateral_asset: u64,
        index_asset: u64,
        size_delta: u128,
        is_long: bool,
        collateral_delta_tokens: u128,
    },
    DecreasePosition {
        account: u64,
        collateral_asset: u64,
        index_asset: u64,
        collateral_delta: u128,
        size_delta: u128,
        is_long: bool,
    },
    LiquidatePosition { account: u64, collateral_asset: u64, index_asset: u64, is_long: bool },
}

/// Queries the collaborating custody bank answers for the engine's shell.
#[derive(Clone, Debug, PartialEq, Eq)]
pub enum QueryBankMsg {
    GetMaxWager { asset: String },
    IsAssetWhitelisted { asset: String },
}

/// Read-only projections are served directly from the vault's getters;
/// the wire query schema carries no cases of its own.
#[derive(Clone, Copy, Debug, PartialEq, Eq, Structural)]
pub enum QueryMsg {
    Empty,
}

/// What a successful dispatch did: for each operation case, the vault's
/// state change agrees with that operation's model (or, for the
/// administrative setters, with the setter's documented effect), and the
/// returned notifications carry the operation's numeric outputs.
pub open spec fn spec_dispatch_effect(
    pre: VaultView,
    post: VaultView,
    op: VaultOp,
    ctx: CallContext,
    notes: Seq<Notification>,
) -> bool {
    match op {
        VaultOp::SetInManagerMode { enabled } => notes.len() == 0 && post == pre.with_config(
            (VaultConfig { in_manager_mode: enabled, ..pre.config }),
        ),
        VaultOp::SetManager { account, active } => notes.len() == 0 && post == (VaultView {
            managers: if active {
                pre.managers.insert(account)
            } else {
                pre.managers.remove(account)
            },
            ..pre
        }),
        VaultOp::SetInPrivateLiquidationMode { enabled } => notes.len() == 0 && post
            == pre.with_config(
            (VaultConfig { in_private_liquidation_mode: enabled, ..pre.config }),
        ),
        VaultOp::SetLiquidator { account, active } => notes.len() == 0 && post == (VaultView {
            liquidators: if active {
                pre.liquidators.insert(account)
            } else {
                pre.liquidators.remove(account)
            },
            ..pre
        }),
        VaultOp::SetIsSwapEnabled { enabled } => notes.len() == 0 && post == pre.with_config(
            (VaultConfig { is_swap_enabled: enabled, ..pre.config }),
        ),
        VaultOp::SetIsLeverageEnabled { enabled } => notes.len() == 0 && post == pre.with_config(
            (VaultConfig { is_leverage_enabled: enabled, ..pre.config }),
        ),
        VaultOp::SetMaxGasPrice { max_gas_price } => notes.len() == 0 && post == pre.with_config(
            (VaultConfig { max_gas_price, ..pre.config }),
        ),
        VaultOp::SetGov { authority } => notes.len() == 0 && post == pre.with_config(
            (VaultConfig { authority, ..pre.config }),
        ),
        VaultOp::SetPriceFeed { price_feed } => notes.len() == 0 && post == pre.with_config(
            (VaultConfig { price_feed, ..pre.config }),
        ),
        VaultOp::SetMaxLeverage { max_leverage } => notes.len() == 0 && post == pre.with_config(
            (VaultConfig { max_leverage, ..pre.config }),
        ),
        VaultOp::SetBufferAmount { asset, amount } => notes.len() == 0 && post == (VaultView {
            assets: pre.assets.insert(
                asset,
                (crate::asset::AssetState { buffer_amount: amount, ..pre.assets[asset] }),
            ),
            ..pre
        }),
        VaultOp::SetMaxGlobalShortSize { asset, amount } => notes.len() == 0 && post
            == (VaultView {
            assets: pre.assets.insert(
                asset,
                (crate::asset::AssetState {
                    max_global_short_size: amount,
                    ..pre.assets[asset]
                }),
            ),
            ..pre
        }),
        VaultOp::SetFees {
            tax_basis_points,
            stable_tax_basis_points,
            mint_burn_fee_basis_points,
            swap_fee_basis_points,
            stable_swap_fee_basis_points,
            margin_fee_basis_points,
            liquidation_fee_usd,
            min_profit_time,
            has_dynamic_fees,
        } => notes.len() == 0 && post == pre.with_config(
            (VaultConfig {
                tax_basis_points,
                stable_tax_basis_points,
                mint_burn_fee_basis_points,
                swap_fee_basis_points,
                stable_swap_fee_basis_points,
                margin_fee_basis_points,
                liquidation_fee_usd,
                min_profit_time,
                has_dynamic_fees,
                ..pre.config
            }),
        ),
        VaultOp::SetFundingRate {
            funding_interval,
            funding_rate_factor,
            stable_funding_rate_factor,
        } => notes.len() == 0 && post == pre.with_config(
            (VaultConfig {
                funding_interval,
                funding_rate_factor,
                stable_funding_rate_factor,
                ..pre.config
            }),
        ),
        VaultOp::SetTokenConfig { .. } => notes.len() == 0,
        VaultOp::ClearTokenConfig { asset } => notes.len() == 0 && post == (VaultView {
            assets: pre.assets.remove(asset),
            total_token_weights: (pre.total_token_weights
                - pre.assets[asset].token_weight) as u128,
            whitelisted_count: (pre.whitelisted_count - 1) as u64,
            ..pre
        }),
        VaultOp::WithdrawFees { asset } => notes =~= seq![
            (Notification::WithdrawFees { asset, amount: pre.assets[asset].fee_reserve }),
        ] && post.assets == pre.assets.insert(
            asset,
            (crate::asset::AssetState { fee_reserve: 0, ..pre.assets[asset] }),
        ),
        VaultOp::SetUsdgAmount { asset, amount } => notes.len() == 0 && post.assets
            == pre.assets.insert(
            asset,
            (crate::asset::AssetState { usdg_amount: amount, ..pre.assets[asset] }),
        ),
        VaultOp::DirectPoolDeposit { asset, amount } => notes =~= seq![
            (Notification::DirectPoolDeposit { asset, amount }),
        ],
        VaultOp::BuyUsdg { asset, token_amount } => {
            let m = crate::vault::spec_buy_usdg(
                pre,
                ctx.caller,
                asset,
                token_amount,
                ctx.custody_balance,
                ctx.now,
                ctx.price_a,
            );
            m matches Ok((model_post, mint_amount)) && post == model_post && notes =~= seq![
                (Notification::BuyUsdg {
                    account: ctx.caller,
                    asset,
                    token_amount,
                    mint_amount,
                }),
            ]
        },
        VaultOp::SellUsdg { asset, usdg_amount } => {
            let m = crate::vault::spec_sell_usdg(
                pre,
                ctx.caller,
                asset,
                usdg_amount,
                ctx.now,
                ctx.price_a,
            );
            m matches Ok((model_post, payout)) && post == model_post && notes =~= seq![
                (Notification::SellUsdg { account: ctx.caller, asset, usdg_amount, payout }),
            ]
        },
        VaultOp::UpdateCumulativeFundingRate { asset } => post.assets == pre.assets.insert(
            asset,
            crate::funding::funding_step(pre.config, pre.assets[asset], ctx.now),
        ),
        VaultOp::Swap { token_in, token_out, amount_in } => {
            let m = crate::vault::spec_swap(
                pre,
                token_in,
                token_out,
                amount_in,
                ctx.custody_balance,
                ctx.now,
                ctx.price_a,
                ctx.price_b,
            );
            m matches Ok((model_post, amount_out_after_fees)) && post == model_post && notes
                =~= seq![
                (Notification::Swap {
                    account: ctx.caller,
                    token_in,
                    token_out,
                    amount_in,
                    amount_out_after_fees,
                }),
            ]
        },
        VaultOp::IncreasePosition {
            account,
            collateral_asset,
            index_asset,
            size_delta,
            is_long,
            collateral_delta_tokens,
        } => {
            let m = crate::vault::spec_increase_position(
                pre,
                account,
                collateral_asset,
                index_asset,
                size_delta,
                is_long,
                collateral_delta_tokens,
                ctx.custody_balance,
                ctx.now,
                ctx.price_a,
                ctx.price_b,
            );
            m matches Ok((model_post, price, fee_usd)) && post == model_post && notes =~= seq![
                (Notification::IncreasePosition {
                    account,
                    collateral_asset,
                    index_asset,
                    collateral_delta_tokens,
                    size_delta,
                    is_long,
                    price,
                    fee_usd,
                }),
            ]
        },
        VaultOp::DecreasePosition {
            account,
            collateral_asset,
            index_asset,
            collateral_delta,
            size_delta,
            is_long,
        } => {
            let m = crate::vault::spec_decrease_position(
                pre,
                account,
                collateral_asset,
                index_asset,
                collateral_delta,
                size_delta,
                is_long,
                ctx.custody_balance,
                ctx.now,
                ctx.price_a,
                ctx.price_b,
            );
            m matches Ok((model_post, outcome)) && post == model_post && notes =~= seq![
                (Notification::DecreasePosition {
                    account,
                    collateral_asset,
                    index_asset,
                    collateral_delta,
                    size_delta,
                    is_long,
                    price: outcome.mark,
                    usd_out_after_fee: outcome.usd_out_after_fee,
                    payout_tokens: outcome.payout_tokens,
                    realised_pnl: outcome.realised_pnl,
                }),
            ]
        },
        VaultOp::LiquidatePosition { account, collateral_asset, index_asset, is_long } => {
            let m = crate::vault::spec_liquidate_position(
                pre,
                ctx.caller,
                account,
                collateral_asset,
                index_asset,
                is_long,
                ctx.custody_balance,
                ctx.now,
                ctx.price_a,
                ctx.price_b,
            );
            let prior_size = pre.position_or_empty(
                PositionKey { account, collateral_asset, index_asset, is_long },
            ).size;
            m matches Ok((model_post, outcome)) && post == model_post && (match outcome {
                crate::vault::LiquidationOutcome::ClosedViaDecrease { outcome: dec } => notes
                    =~= seq![
                    (Notification::DecreasePosition {
                        account,
                        collateral_asset,
                        index_asset,
                        collateral_delta: 0,
                        size_delta: prior_size,
                        is_long,
                        price: dec.mark,
                        usd_out_after_fee: dec.usd_out_after_fee,
                        payout_tokens: dec.payout_tokens,
                        realised_pnl: dec.realised_pnl,
                    }),
                ],
                crate::vault::LiquidationOutcome::Seized {
                    margin_fee_usd,
                    mark,
                    liquidation_fee_tokens,
                } => notes =~= seq![
                    (Notification::LiquidatePosition {
                        account,
                        collateral_asset,
                        index_asset,
                        is_long,
                        margin_fee_usd,
                        mark_price: mark,
                        liquidation_fee_tokens,
                    }),
                ],
            })
        },
    }
}

/// Whether an admin-only arm was called by the authority; every arm of
/// the dispatch below that mutates configuration is gated on this.
pub open spec fn authorized(pre: VaultView, ctx: CallContext) -> bool {
    ctx.caller == pre.config.authority
}

/// Exactly when a dispatched operation succeeds: the administrative arms
/// when the authority calls them with in-range parameters, and each
/// trading or bridge arm when its model does.
pub open spec fn spec_dispatch_succeeds(pre: VaultView, op: VaultOp, ctx: CallContext) -> bool {
    match op {
        VaultOp::SetInManagerMode { .. } => authorized(pre, ctx),
        VaultOp::SetManager { .. } => authorized(pre, ctx),
        VaultOp::SetInPrivateLiquidationMode { .. } => authorized(pre, ctx),
        VaultOp::SetLiquidator { .. } => authorized(pre, ctx),
        VaultOp::SetIsSwapEnabled { .. } => authorized(pre, ctx),
        VaultOp::SetIsLeverageEnabled { .. } => authorized(pre, ctx),
        VaultOp::SetMaxGasPrice { .. } => authorized(pre, ctx),
        VaultOp::SetGov { .. } => authorized(pre, ctx),
        VaultOp::SetPriceFeed { .. } => authorized(pre, ctx),
        VaultOp::SetMaxLeverage { max_leverage } => authorized(pre, ctx) && max_leverage
            >= crate::MIN_LEVERAGE,
        VaultOp::SetBufferAmount { asset, .. } => authorized(pre, ctx) && pre.assets.contains_key(
            asset,
        ),
        VaultOp::SetMaxGlobalShortSize { asset, .. } => authorized(pre, ctx)
            && pre.assets.contains_key(asset),
        VaultOp::SetFees {
            tax_basis_points,
            stable_tax_basis_points,
            mint_burn_fee_basis_points,
            swap_fee_basis_points,
            stable_swap_fee_basis_points,
            margin_fee_basis_points,
            liquidation_fee_usd,
            ..
        } => {
            &&& authorized(pre, ctx)
            &&& tax_basis_points <= crate::MAX_FEE_BASIS_POINTS
            &&& stable_tax_basis_points <= crate::MAX_FEE_BASIS_POINTS
            &&& mint_burn_fee_basis_points <= crate::MAX_FEE_BASIS_POINTS
            &&& swap_fee_basis_points <= crate::MAX_FEE_BASIS_POINTS
            &&& stable_swap_fee_basis_points <= crate::MAX_FEE_BASIS_POINTS
            &&& margin_fee_basis_points <= crate::MAX_FEE_BASIS_POINTS
            &&& liquidation_fee_usd <= crate::MAX_LIQUIDATION_FEE_USD
        },
        VaultOp::SetFundingRate {
            funding_interval,
            funding_rate_factor,
            stable_funding_rate_factor,
        } => {
            &&& authorized(pre, ctx)
            &&& funding_interval >= crate::MIN_FUNDING_RATE_INTERVAL
            &&& funding_rate_factor <= crate::MAX_FUNDING_RATE_FACTOR
            &&& stable_funding_rate_factor <= crate::MAX_FUNDING_RATE_FACTOR
        },
        VaultOp::SetTokenConfig { asset, decimals, token_weight, max_usdg_amount, .. } => {
            &&& authorized(pre, ctx)
            &&& decimals <= crate::MAX_TOKEN_DECIMALS
            &&& if pre.assets.contains_key(asset) {
                let st = pre.assets[asset];
                &&& !(max_usdg_amount != 0 && st.usdg_amount > max_usdg_amount)
                &&& pre.total_token_weights >= st.token_weight
                &&& pre.total_token_weights - st.token_weight + token_weight <= u128::MAX
            } else {
                &&& pre.whitelisted_count + 1 <= u64::MAX
                &&& pre.total_token_weights + token_weight <= u128::MAX
            }
        },
        VaultOp::ClearTokenConfig { asset } => {
            &&& authorized(pre, ctx)
            &&& pre.assets.contains_key(asset)
            &&& pre.whitelisted_count != 0
            &&& pre.total_token_weights >= pre.assets[asset].token_weight
        },
        VaultOp::WithdrawFees { asset } => authorized(pre, ctx) && pre.assets.contains_key(asset)
            && pre.assets[asset].fee_reserve != 0,
        VaultOp::SetUsdgAmount { asset, amount } => {
            &&& authorized(pre, ctx)
            &&& pre.assets.contains_key(asset)
            &&& (amount > pre.assets[asset].usdg_amount ==> {
                let st = pre.assets[asset];
                &&& !(st.max_usdg_amount != 0 && amount > st.max_usdg_amount)
                &&& pre.usdg_supply + (amount - st.usdg_amount) <= u128::MAX
            })
        },
        VaultOp::DirectPoolDeposit { asset, amount } => {
            &&& pre.assets.contains_key(asset)
            &&& amount != 0
            &&& crate::funding::funding_fits(pre.config, pre.assets[asset], ctx.now)
            &&& {
                let st1 = crate::funding::funding_step(pre.config, pre.assets[asset], ctx.now);
                st1.pool_amount + amount <= u128::MAX && ctx.custody_balance >= st1.pool_amount
                    + amount
            }
        },
        VaultOp::BuyUsdg { asset, token_amount } => crate::vault::spec_buy_usdg(
            pre,
            ctx.caller,
            asset,
            token_amount,
            ctx.custody_balance,
            ctx.now,
            ctx.price_a,
        ) is Ok,
        VaultOp::SellUsdg { asset, usdg_amount } => crate::vault::spec_sell_usdg(
            pre,
            ctx.caller,
            asset,
            usdg_amount,
            ctx.now,
            ctx.price_a,
        ) is Ok,
        VaultOp::UpdateCumulativeFundingRate { asset } => pre.assets.contains_key(asset)
            && crate::funding::funding_fits(pre.config, pre.assets[asset], ctx.now),
        VaultOp::Swap { token_in, token_out, amount_in } => crate::vault::spec_swap(
            pre,
            token_in,
            token_out,
            amount_in,
            ctx.custody_balance,
            ctx.now,
            ctx.price_a,
            ctx.price_b,
        ) is Ok,
        VaultOp::IncreasePosition {
            account,
            collateral_asset,
            index_asset,
            size_delta,
            is_long,
            collateral_delta_tokens,
        } => crate::vault::spec_increase_position(
            pre,
            account,
            collateral_asset,
            index_asset,
            size_delta,
            is_long,
            collateral_delta_tokens,
            ctx.custody_balance,
            ctx.now,
            ctx.price_a,
            ctx.price_b,
        ) is Ok,
        VaultOp::DecreasePosition {
            account,
            collateral_asset,
            index_asset,
            collateral_delta,
            size_delta,
            is_long,
        } => crate::vault::spec_decrease_position(
            pre,
            account,
            collateral_asset,
            index_asset,
            collateral_delta,
            size_delta,
            is_long,
            ctx.custody_balance,
            ctx.now,
            ctx.price_a,
            ctx.price_b,
        ) is Ok,
        VaultOp::LiquidatePosition { account, collateral_asset, index_asset, is_long } => crate::vault::spec_liquidate_position(
            pre,
            ctx.caller,
            account,
            collateral_asset,
            index_asset,
            is_long,
            ctx.custody_balance,
            ctx.now,
            ctx.price_a,
            ctx.price_b,
        ) is Ok,
    }
}

/// Dispatch one operation: a single match over the union. On success the
/// numeric outputs are folded into typed notifications; on any failure
/// the vault is exactly as it was.
pub fn execute(vault: &mut Vault, op: VaultOp, ctx: CallContext) -> (r: Result<
    Vec<Notification>,
    ContractError,
>)
    requires
        old(vault).wf(),
    ensures
        final(vault).wf(),
        r is Err ==> final(vault)@ == old(vault)@,
        r matches Ok(notes) ==> spec_dispatch_effect(old(vault)@, final(vault)@, op, ctx, notes@),
        r is Ok <==> spec_dispatch_succeeds(old(vault)@, op, ctx),
{
    match op {
        VaultOp::SetInManagerMode { enabled } => {
            vault.set_in_manager_mode(ctx.caller, enabled)?;
            Ok(Vec::new())
        },
        VaultOp::SetManager { account, active } => {
            vault.set_manager(ctx.caller, account, active)?;
            Ok(Vec::new())
        },
        VaultOp::SetInPrivateLiquidationMode { enabled } => {
            vault.set_in_private_liquidation_mode(ctx.caller, enabled)?;
            Ok(Vec::new())
        },
        VaultOp::SetLiquidator { account, active } => {
            vault.set_liquidator(ctx.caller, account, active)?;
            Ok(Vec::new())
        },
        VaultOp::SetIsSwapEnabled { enabled } => {
            vault.set_is_swap_enabled(ctx.caller, enabled)?;
            Ok(Vec::new())
        },
        VaultOp::SetIsLeverageEnabled { enabled } => {
            vault.set_is_leverage_enabled(ctx.caller, enabled)?;
            Ok(Vec::new())
        },
        VaultOp::SetMaxGasPrice { max_gas_price } => {
            vault.set_max_gas_price(ctx.caller, max_gas_price)?;
            Ok(Vec::new())
        },
        VaultOp::SetGov { authority } => {
            vault.set_gov(ctx.caller, authority)?;
            Ok(Vec::new())
        },
        VaultOp::SetPriceFeed { price_feed } => {
            vault.set_price_feed(ctx.caller, price_feed)?;
            Ok(Vec::new())
        },
        VaultOp::SetMaxLeverage { max_leverage } => {
            vault.set_max_leverage(ctx.caller, max_leverage)?;
            Ok(Vec::new())
        },
        VaultOp::SetBufferAmount { asset, amount } => {
            vault.set_buffer_amount(ctx.caller, asset, amount)?;
            Ok(Vec::new())
        },
        VaultOp::SetMaxGlobalShortSize { asset, amount } => {
            vault.set_max_global_short_size(ctx.caller, asset, amount)?;
            Ok(Vec::new())
        },
        VaultOp::SetFees {
            tax_basis_points,
            stable_tax_basis_points,
            mint_burn_fee_basis_points,
            swap_fee_basis_points,
            stable_swap_fee_basis_points,
            margin_fee_basis_points,
            liquidation_fee_usd,
            min_profit_time,
            has_dynamic_fees,
        } => {
            vault.set_fees(
                ctx.caller,
                tax_basis_points,
                stable_tax_basis_points,
                mint_burn_fee_basis_points,
                swap_fee_basis_points,
                stable_swap_fee_basis_points,
                margin_fee_basis_points,
                liquidation_fee_usd,
                min_profit_time,
                has_dynamic_fees,
            )?;
            Ok(Vec::new())
        },
        VaultOp::SetFundingRate {
            funding_interval,
            funding_rate_factor,
            stable_funding_rate_factor,
        } => {
            vault.set_funding_rate(
                ctx.caller,
                funding_interval,
                funding_rate_factor,
                stable_funding_rate_factor,
            )?;
            Ok(Vec::new())
        },
        VaultOp::SetTokenConfig {
            asset,
            decimals,
            token_weight,
            min_profit_basis_points,
            max_usdg_amount,
            is_stable,
            is_shortable,
        } => {
            vault.set_token_config(
                ctx.caller,
                asset,
                decimals,
                token_weight,
                min_profit_basis_points,
                max_usdg_amount,
                is_stable,
                is_shortable,
            )?;
            Ok(Vec::new())
        },
        VaultOp::ClearTokenConfig { asset } => {
            vault.clear_token_config(ctx.caller, asset)?;
            Ok(Vec::new())
        },
        VaultOp::WithdrawFees { asset } => {
            let amount = vault.withdraw_fees(ctx.caller, asset)?;
            let mut notes: Vec<Notification> = Vec::new();
            notes.push(Notification::WithdrawFees { asset, amount });
            Ok(notes)
        },
        VaultOp::SetUsdgAmount { asset, amount } => {
            vault.set_usdg_amount(ctx.caller, asset, amount)?;
            Ok(Vec::new())
        },
        VaultOp::DirectPoolDeposit { asset, amount } => {
            vault.direct_pool_deposit(asset, amount, ctx.custody_balance, ctx.now)?;
            let mut notes: Vec<Notification> = Vec::new();
            notes.push(Notification::DirectPoolDeposit { asset, amount });
            Ok(notes)
        },
        VaultOp::BuyUsdg { asset, token_amount } => {
            let mint_amount = vault.buy_usdg(
                ctx.caller,
                asset,
                token_amount,
                ctx.custody_balance,
                ctx.now,
                ctx.price_a,
            )?;
            let mut notes: Vec<Notification> = Vec::new();
            notes.push(
                Notification::BuyUsdg { account: ctx.caller, asset, token_amount, mint_amount },
            );
            Ok(notes)
        },
        VaultOp::SellUsdg { asset, usdg_amount } => {
            let payout = vault.sell_usdg(ctx.caller, asset, usdg_amount, ctx.now, ctx.price_a)?;
            let mut notes: Vec<Notification> = Vec::new();
            notes.push(
                Notification::SellUsdg { account: ctx.caller, asset, usdg_amount, payout },
            );
            Ok(notes)
        },
        VaultOp::UpdateCumulativeFundingRate { asset } => {
            let _outcome = vault.update_cumulative_funding_rate(asset, ctx.now)?;
            let st = match vault.get_token(asset) {
                Some(st) => st,
                None => {
                    return Ok(Vec::new());
                },
            };
            let mut notes: Vec<Notification> = Vec::new();
            notes.push(
                Notification::UpdateFundingRate {
                    asset,
                    cumulative_funding_rate: st.cumulative_funding_rate,
                },
            );
            Ok(notes)
        },
        VaultOp::Swap { token_in, token_out, amount_in } => {
            let amount_out_after_fees = vault.swap(
                token_in,
                token_out,
                amount_in,
                ctx.custody_balance,
                ctx.now,
                ctx.price_a,
                ctx.price_b,
            )?;
            let mut notes: Vec<Notification> = Vec::new();
            notes.push(
                Notification::Swap {
                    account: ctx.caller,
                    token_in,
                    token_out,
                    amount_in,
                    amount_out_after_fees,
                },
            );
            Ok(notes)
        },
        VaultOp::IncreasePosition {
            account,
            collateral_asset,
            index_asset,
            size_delta,
            is_long,
            collateral_delta_tokens,
        } => {
            let (price, fee_usd) = vault.increase_position(
                account,
                collateral_asset,
                index_asset,
                size_delta,
                is_long,
                collateral_delta_tokens,
                ctx.custody_balance,
                ctx.now,
                ctx.price_a,
                ctx.price_b,
            )?;
            let mut notes: Vec<Notification> = Vec::new();
            notes.push(
                Notification::IncreasePosition {
                    account,
                    collateral_asset,
                    index_asset,
                    collateral_delta_tokens,
                    size_delta,
                    is_long,
                    price,
                    fee_usd,
                },
            );
            Ok(notes)
        },
        VaultOp::DecreasePosition {
            account,
            collateral_asset,
            index_asset,
            collateral_delta,
            size_delta,
            is_long,
        } => {
            let outcome = vault.decrease_position(
                account,
                collateral_asset,
                index_asset,
                collateral_delta,
                size_delta,
                is_long,
                ctx.custody_balance,
                ctx.now,
                ctx.price_a,
                ctx.price_b,
            )?;
            let mut notes: Vec<Notification> = Vec::new();
            notes.push(
                Notification::DecreasePosition {
                    account,
                    collateral_asset,
                    index_asset,
                    collateral_delta,
                    size_delta,
                    is_long,
                    price: outcome.mark,
                    usd_out_after_fee: outcome.usd_out_after_fee,
                    payout_tokens: outcome.payout_tokens,
                    realised_pnl: outcome.realised_pnl,
                },
            );
            Ok(notes)
        },
        VaultOp::LiquidatePosition { account, collateral_asset, index_asset, is_long } => {
            let prior_size = vault.get_position(
                account,
                collateral_asset,
                index_asset,
                is_long,
            ).size;
            let outcome = vault.liquidate_position(
                ctx.caller,
                account,
                collateral_asset,
                index_asset,
                is_long,
                ctx.custody_balance,
                ctx.now,
                ctx.price_a,
                ctx.price_b,
            )?;
            let mut notes: Vec<Notification> = Vec::new();
            match outcome {
                crate::vault::LiquidationOutcome::ClosedViaDecrease { outcome: dec } => {
                    notes.push(
                        Notification::DecreasePosition {
                            account,
                            collateral_asset,
                            index_asset,
                            collateral_delta: 0,
                            size_delta: prior_size,
                            is_long,
                            price: dec.mark,
                            usd_out_after_fee: dec.usd_out_after_fee,
                            payout_tokens: dec.payout_tokens,
                            realised_pnl: dec.realised_pnl,
                        },
                    );
                },
                crate::vault::LiquidationOutcome::Seized {
                    margin_fee_usd,
                    mark,
                    liquidation_fee_tokens,
                } => {
                    notes.push(
                        Notification::LiquidatePosition {
                            account,
                            collateral_asset,
                            index_asset,
                            is_long,
                            margin_fee_usd,
                            mark_price: mark,
                            liquidation_fee_tokens,
                        },
                    );
                },
            }
            Ok(notes)
        },
    }
}

} // verus!
