//! Position lifecycle scenarios: opening, partial decrease with a loss,
//! full close, and liquidation under both regimes.

use vault::{ContractError, LiquidationOutcome, PricePair, Vault};

const AUTHORITY: u64 = 1;
const TRADER: u64 = 7;
const ASSET_X: u64 = 101;

fn flat(p: u128) -> PricePair {
    PricePair { min: p, max: p }
}

/// A vault with one non-stable asset (decimals 6, weight 1000), margin
/// and liquidation fees zeroed so position arithmetic is exact, and a
/// pool of 1_000_000 units.
fn setup_long_vault() -> Vault {
    let mut v = Vault::new(AUTHORITY, 2, 3, 4, 99, 0, 600, 600).unwrap();
    v.set_fees(AUTHORITY, 50, 20, 30, 30, 4, 0, 0, 0, false).unwrap();
    v.set_token_config(AUTHORITY, ASSET_X, 6, 1000, 0, 0, false, false).unwrap();
    v.direct_pool_deposit(ASSET_X, 1_000_000, 1_000_000, 0).unwrap();
    v
}

#[test]
fn open_long_scenario() {
    // Whitelisted asset, pool 1_000_000, reserved 0; open a long with
    // sizeDelta = 100_000 USD at the price-precision mark price.
    let mut v = setup_long_vault();
    let before = v.get_token(ASSET_X).unwrap();
    assert_eq!(before.pool_amount, 1_000_000);
    assert_eq!(before.reserved_amount, 0);

    let mark: u128 = 1_000_000_000_000_000_000_000_000_000_000;
    let price = flat(mark);
    let (price_paid, fee_usd) = v
        .increase_position(TRADER, ASSET_X, ASSET_X, 100_000, true, 0, 1_000_000, 0, price, price)
        .unwrap();
    assert_eq!(price_paid, mark);
    assert_eq!(fee_usd, 0);

    let p = v.get_position(TRADER, ASSET_X, ASSET_X, true);
    assert_eq!(p.size, 100_000);
    assert_eq!(p.average_price, mark);

    // reservedAmount grows by usdToTokenMax(100_000, mark):
    // 100_000 * 10^6 / 10^30 floors to zero at this price.
    let after = v.get_token(ASSET_X).unwrap();
    assert_eq!(after.reserved_amount, before.reserved_amount);
    // guaranteedUsd grows by sizeDelta + fee - depositedCollateralUsd.
    assert_eq!(after.guaranteed_usd, before.guaranteed_usd + 100_000 + 0 - 0);
    assert!(after.pool_amount >= after.reserved_amount);
}

/// Open a 5x long: size 100_000 USD against 20_000 deposited units at a
/// price that makes token and USD units interchangeable.
fn open_standard_long(v: &mut Vault) {
    let price = flat(1_000_000);
    v.increase_position(
        TRADER, ASSET_X, ASSET_X, 100_000, true, 20_000, 1_020_000, 0, price, price,
    )
    .unwrap();
    let p = v.get_position(TRADER, ASSET_X, ASSET_X, true);
    assert_eq!(p.size, 100_000);
    assert_eq!(p.collateral, 20_000);
    assert_eq!(p.average_price, 1_000_000);
    assert_eq!(p.reserve_amount, 100_000);
}

#[test]
fn decrease_partial_loss_scenario() {
    // size=100_000, collateral=20_000, loss adjustedDelta=5_000 on a
    // 50_000 decrease, no collateral withdrawal: collateral becomes
    // 15_000, nothing is paid out, and the position stays open.
    let mut v = setup_long_vault();
    open_standard_long(&mut v);

    // Mark (min side) 100_000 below entry:
    // delta = 100_000 * 100_000 / 1_000_000 = 10_000, so the decrease of
    // 50_000 realizes adjusted = 50_000 * 10_000 / 100_000 = 5_000.
    let index_price = PricePair { min: 900_000, max: 1_000_000 };
    let collateral_price = flat(1_000_000);
    let out = v
        .decrease_position(
            TRADER,
            ASSET_X,
            ASSET_X,
            0,
            50_000,
            true,
            2_000_000,
            0,
            collateral_price,
            index_price,
        )
        .unwrap();
    assert_eq!(out.usd_out, 0);
    assert_eq!(out.usd_out_after_fee, 0);
    assert_eq!(out.payout_tokens, 0);
    assert_eq!(out.realised_pnl, -5_000);

    let p = v.get_position(TRADER, ASSET_X, ASSET_X, true);
    assert_eq!(p.size, 50_000);
    assert_eq!(p.collateral, 15_000);

    let st = v.get_token(ASSET_X).unwrap();
    assert!(st.pool_amount >= st.reserved_amount);
}

#[test]
fn full_close_zeroes_position() {
    let mut v = setup_long_vault();
    open_standard_long(&mut v);
    let price = flat(1_000_000);
    let out = v
        .decrease_position(TRADER, ASSET_X, ASSET_X, 0, 100_000, true, 2_000_000, 0, price, price)
        .unwrap();
    // Flat price: no PnL; the whole collateral is flushed out.
    assert_eq!(out.usd_out, 20_000);
    assert_eq!(out.usd_out_after_fee, 20_000);
    assert_eq!(out.payout_tokens, 20_000);
    let p = v.get_position(TRADER, ASSET_X, ASSET_X, true);
    assert_eq!(p.size, 0);
    assert_eq!(p.collateral, 0);
    assert_eq!(p.reserve_amount, 0);
}

#[test]
fn liquidation_max_leverage_closes_without_fee() {
    // A solvent position above the leverage ceiling is closed through
    // the ordinary decrease path: no liquidation fee, no seizure beyond
    // what an ordinary close would remove.
    let mut v = setup_long_vault();
    open_standard_long(&mut v);
    // 5x position; drop the ceiling to 2x.
    v.set_max_leverage(AUTHORITY, 20_000).unwrap();
    let price = flat(1_000_000);
    let outcome = v
        .liquidate_position(9, TRADER, ASSET_X, ASSET_X, true, 2_000_000, 0, price, price)
        .unwrap();
    match outcome {
        LiquidationOutcome::ClosedViaDecrease { outcome } => {
            assert_eq!(outcome.fee_usd, 0);
            // Ordinary close refunds the full collateral to the owner.
            assert_eq!(outcome.usd_out_after_fee, 20_000);
        },
        LiquidationOutcome::Seized { .. } => panic!("solvent position must not be seized"),
    }
    let p = v.get_position(TRADER, ASSET_X, ASSET_X, true);
    assert_eq!(p.size, 0);
    assert_eq!(p.collateral, 0);
}

#[test]
fn liquidation_insolvent_seizes() {
    let mut v = setup_long_vault();
    // Nonzero fixed liquidation fee so the margin floor bites.
    v.set_fees(AUTHORITY, 50, 20, 30, 30, 4, 0, 5, 0, false).unwrap();
    open_standard_long(&mut v);
    // Crash to 800_000: loss = 100_000 * 200_000 / 1_000_000 = 20_000,
    // leaving nothing over the liquidation-fee floor.
    let crash = flat(800_000);
    let outcome = v
        .liquidate_position(9, TRADER, ASSET_X, ASSET_X, true, 2_000_000, 0, crash, crash)
        .unwrap();
    match outcome {
        LiquidationOutcome::Seized { margin_fee_usd, mark, liquidation_fee_tokens } => {
            assert_eq!(margin_fee_usd, 0);
            assert_eq!(mark, 800_000);
            // 5 USD at max price 800_000: 5 * 10^6 / 800_000 = 6.
            assert_eq!(liquidation_fee_tokens, 6);
        },
        LiquidationOutcome::ClosedViaDecrease { .. } => {
            panic!("insolvent position must be seized")
        },
    }
    let p = v.get_position(TRADER, ASSET_X, ASSET_X, true);
    assert_eq!(p.size, 0);
    assert_eq!(p.collateral, 0);
    let st = v.get_token(ASSET_X).unwrap();
    assert_eq!(st.reserved_amount, 0);
    assert!(st.pool_amount >= st.reserved_amount);
}

#[test]
fn healthy_position_cannot_be_liquidated() {
    let mut v = setup_long_vault();
    open_standard_long(&mut v);
    let price = flat(1_000_000);
    let err = v
        .liquidate_position(9, TRADER, ASSET_X, ASSET_X, true, 2_000_000, 0, price, price)
        .unwrap_err();
    assert_eq!(err, ContractError::InvalidAmount);
    let p = v.get_position(TRADER, ASSET_X, ASSET_X, true);
    assert_eq!(p.size, 100_000);
}

#[test]
fn private_liquidation_mode_gates_callers() {
    let mut v = setup_long_vault();
    open_standard_long(&mut v);
    v.set_in_private_liquidation_mode(AUTHORITY, true).unwrap();
    let price = flat(800_000);
    let err = v
        .liquidate_position(9, TRADER, ASSET_X, ASSET_X, true, 2_000_000, 0, price, price)
        .unwrap_err();
    assert_eq!(err, ContractError::Unauthorized);
    // Allow-listed liquidators are admitted.
    v.set_liquidator(AUTHORITY, 9, true).unwrap();
    assert!(v.query_liquidator(9));
    v.liquidate_position(9, TRADER, ASSET_X, ASSET_X, true, 2_000_000, 0, price, price).unwrap();
}

#[test]
fn leverage_disabled_rejects_increase() {
    let mut v = setup_long_vault();
    v.set_is_leverage_enabled(AUTHORITY, false).unwrap();
    let price = flat(1_000_000);
    let err = v
        .increase_position(TRADER, ASSET_X, ASSET_X, 100_000, true, 20_000, 2_000_000, 0, price, price)
        .unwrap_err();
    assert_eq!(err, ContractError::DisabledFeature);
}

#[test]
fn long_requires_matching_collateral_and_index() {
    let mut v = setup_long_vault();
    let price = flat(1_000_000);
    let err = v
        .increase_position(TRADER, ASSET_X, 555, 100_000, true, 20_000, 2_000_000, 0, price, price)
        .unwrap_err();
    assert_eq!(err, ContractError::InvalidAsset { asset: ASSET_X });
}

#[test]
fn oversized_decrease_is_rejected() {
    let mut v = setup_long_vault();
    open_standard_long(&mut v);
    let price = flat(1_000_000);
    let err = v
        .decrease_position(TRADER, ASSET_X, ASSET_X, 0, 100_001, true, 2_000_000, 0, price, price)
        .unwrap_err();
    assert_eq!(err, ContractError::InvalidAmount);
    // The failed call left the position untouched.
    let p = v.get_position(TRADER, ASSET_X, ASSET_X, true);
    assert_eq!(p.size, 100_000);
    assert_eq!(p.collateral, 20_000);
}

#[test]
fn margin_fee_is_charged_on_open() {
    let mut v = setup_long_vault();
    // 10 bps margin fee: fee on 100_000 of notional is 100 USD.
    v.set_fees(AUTHORITY, 50, 20, 30, 30, 4, 10, 0, 0, false).unwrap();
    let price = flat(1_000_000);
    let (_, fee_usd) = v
        .increase_position(TRADER, ASSET_X, ASSET_X, 100_000, true, 20_000, 1_020_000, 0, price, price)
        .unwrap();
    assert_eq!(fee_usd, 100);
    let p = v.get_position(TRADER, ASSET_X, ASSET_X, true);
    assert_eq!(p.collateral, 20_000 - 100);
    // The fee moved, in asset units, from the pool to the fee reserve.
    let st = v.get_token(ASSET_X).unwrap();
    assert_eq!(st.fee_reserve, 100);
}

#[test]
fn short_updates_global_short_book() {
    let mut v = Vault::new(AUTHORITY, 2, 3, 4, 99, 0, 600, 600).unwrap();
    v.set_fees(AUTHORITY, 50, 20, 30, 30, 4, 0, 0, 0, false).unwrap();
    // Collateral asset: non-stable; index asset: shortable, non-stable.
    v.set_token_config(AUTHORITY, ASSET_X, 6, 1000, 0, 0, false, false).unwrap();
    v.set_token_config(AUTHORITY, 202, 6, 1000, 0, 0, false, true).unwrap();
    v.direct_pool_deposit(ASSET_X, 1_000_000, 1_000_000, 0).unwrap();
    let price = flat(1_000_000);
    v.increase_position(TRADER, ASSET_X, 202, 50_000, false, 20_000, 1_000_000, 0, price, price)
        .unwrap();
    let idx = v.get_token(202).unwrap();
    assert_eq!(idx.global_short_size, 50_000);
    assert_eq!(idx.global_short_average_price, 1_000_000);
    // A second short at the same price keeps the blended average there.
    v.increase_position(TRADER, ASSET_X, 202, 10_000, false, 5_000, 1_000_000, 0, price, price)
        .unwrap();
    let idx = v.get_token(202).unwrap();
    assert_eq!(idx.global_short_size, 60_000);
    assert_eq!(idx.global_short_average_price, 1_000_000);
}

#[test]
fn anti_wick_lockout_ends_at_the_boundary() {
    // minProfitBasisPoints = 50_000 on the asset, minProfitTime = 100 s.
    // A small profit (raw delta 4, i.e. 40_000 <= 50_000 scaled) counts
    // as zero strictly inside the window and stands from the boundary
    // second onward.
    let open = |v: &mut Vault| {
        let price = flat(1_000_000);
        v.increase_position(
            TRADER, ASSET_X, ASSET_X, 100_000, true, 20_000, 1_020_000, 0, price, price,
        )
        .unwrap();
    };
    let setup = || {
        let mut v = Vault::new(AUTHORITY, 2, 3, 4, 99, 0, 600, 600).unwrap();
        v.set_fees(AUTHORITY, 50, 20, 30, 30, 4, 0, 0, 100, false).unwrap();
        v.set_token_config(AUTHORITY, ASSET_X, 6, 1000, 50_000, 0, false, false).unwrap();
        v.direct_pool_deposit(ASSET_X, 1_000_000, 1_000_000, 0).unwrap();
        v
    };
    let collateral_price = flat(1_000_000);
    let index_price = PricePair { min: 1_000_040, max: 1_000_040 };

    // At t = 99 (inside the window) the profit is forced to zero.
    let mut v = setup();
    open(&mut v);
    let out = v
        .decrease_position(
            TRADER, ASSET_X, ASSET_X, 0, 50_000, true, 2_000_000, 99, collateral_price,
            index_price,
        )
        .unwrap();
    assert_eq!(out.usd_out, 0);
    assert_eq!(out.realised_pnl, 0);

    // At t = 100 (the boundary) the raw delta stands:
    // raw = 100_000 * 40 / 1_000_000 = 4; adjusted = 50_000 * 4 / 100_000.
    let mut v = setup();
    open(&mut v);
    let out = v
        .decrease_position(
            TRADER, ASSET_X, ASSET_X, 0, 50_000, true, 2_000_000, 100, collateral_price,
            index_price,
        )
        .unwrap();
    assert_eq!(out.usd_out, 2);
    assert_eq!(out.usd_out_after_fee, 2);
    assert_eq!(out.realised_pnl, 2);
}
